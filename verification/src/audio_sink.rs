//! Playback types, and the bookkeeping of the playback thread: decoding
//! s16le chunks, the priming watermark, and which queued chunks survive a
//! switch to a new stream.
//!
//! The output device, the ring buffer it drains and the command channel
//! stay outside the library.
use vstd::prelude::*;
use crate::text::{push_str, string_of};

verus! {

/// Output sample rate.
pub const TARGET_SAMPLE_RATE: u32 = 48000;

/// Default priming watermark, in milliseconds of audio.
pub const STREAM_PRIME_DEFAULT_MS: u64 = 500;

/// Smallest priming watermark accepted.
pub const STREAM_PRIME_MIN_MS: u64 = 50;

/// Largest priming watermark accepted.
pub const STREAM_PRIME_MAX_MS: u64 = 2000;

#[derive(Debug, Clone)]
pub enum AudioError {
    WriteError(String),
    StopError(String),
    DeviceError(String),
}

impl AudioError {
    /// The error as a sentence.
    pub fn to_string(&self) -> (r: String)
        ensures
            r@ == match self {
                AudioError::WriteError(m) => "Failed to write audio data: "@ + m@,
                AudioError::StopError(m) => "Failed to stop audio playback: "@ + m@,
                AudioError::DeviceError(m) => "Audio device error: "@ + m@,
            },
    {
        match self {
            AudioError::WriteError(m) => {
                let mut r = string_of("Failed to write audio data: ");
                push_str(&mut r, m.as_str());
                r
            },
            AudioError::StopError(m) => {
                let mut r = string_of("Failed to stop audio playback: ");
                push_str(&mut r, m.as_str());
                r
            },
            AudioError::DeviceError(m) => {
                let mut r = string_of("Audio device error: ");
                push_str(&mut r, m.as_str());
                r
            },
        }
    }
}

#[derive(Clone)]
pub struct AudioSinkConfig {
    pub device_name: Option<String>,
}

impl Default for AudioSinkConfig {
    fn default() -> (r: Self)
        ensures
            r.device_name is None,
    {
        Self { device_name: None }
    }
}

/// The signed 16-bit value of two little-endian bytes.
pub open spec fn i16_from_le(lo: u8, hi: u8) -> i16 {
    let v = lo as int + 256 * (hi as int);
    (if v >= 32768 {
        v - 65536
    } else {
        v
    }) as i16
}

/// The samples of s16le bytes: one per pair of bytes, in order.
pub open spec fn s16le_samples(data: Seq<u8>) -> Seq<i16> {
    Seq::new(data.len() / 2, |k: int| i16_from_le(data[2 * k], data[2 * k + 1]))
}

/// Decoding undoes little-endian encoding: every sample, written as its
/// low byte followed by its high byte (two's complement), decodes back to
/// itself.
pub proof fn lemma_s16le_roundtrip(x: i16)
    ensures
        ({
            let u: int = if x < 0 {
                x + 65536
            } else {
                x as int
            };
            i16_from_le((u % 256) as u8, (u / 256) as u8) == x
        }),
{
    let u: int = if x < 0 {
        x + 65536
    } else {
        x as int
    };
    assert(0 <= u < 65536);
    assert(u % 256 + 256 * (u / 256) == u);
}

/// Decodes mono s16le bytes into samples; refused when the byte count is odd.
pub fn decode_s16le(data: &[u8]) -> (r: Result<Vec<i16>, AudioError>)
    ensures
        data@.len() % 2 == 0 <==> r is Ok,
        r matches Ok(v) ==> v@ == s16le_samples(data@),
        r matches Err(e) ==> e matches AudioError::WriteError(m)
            && m@ == "S16LE data length not aligned to 16-bit samples"@,
{
    if data.len() % 2 != 0 {
        return Err(AudioError::WriteError(string_of("S16LE data length not aligned to 16-bit samples")));
    }
    let n = data.len() / 2;
    let mut out: Vec<i16> = Vec::new();
    let mut k: usize = 0;
    assert(data@.len() == data.len());
    while k < n
        invariant
            k <= n,
            n == data@.len() / 2,
            data@.len() <= usize::MAX,
            out@.len() == k,
            forall|j: int| 0 <= j < k ==> out@[j] == #[trigger] s16le_samples(data@)[j],
        decreases n - k,
    {
        let lo = data[2 * k];
        let hi = data[2 * k + 1];
        let v: i32 = lo as i32 + 256 * hi as i32;
        let s: i16 = if v >= 32768 {
            (v - 65536) as i16
        } else {
            v as i16
        };
        out.push(s);
        k += 1;
    }
    assert(out@ =~= s16le_samples(data@));
    Ok(out)
}

/// The number of samples to buffer before playback starts, from the
/// configured milliseconds (`None`: not configured or not a number): the
/// milliseconds, 500 by default, clamped to 50..=2000, at 48 kHz.
pub fn stream_prime_samples_for(configured_ms: Option<u64>) -> (n: usize)
    ensures
        n == (match configured_ms {
            Some(ms) => if ms < STREAM_PRIME_MIN_MS {
                STREAM_PRIME_MIN_MS
            } else if ms > STREAM_PRIME_MAX_MS {
                STREAM_PRIME_MAX_MS
            } else {
                ms
            },
            None => STREAM_PRIME_DEFAULT_MS,
        }) * 48,
{
    let ms: u64 = match configured_ms {
        Some(ms) => if ms < STREAM_PRIME_MIN_MS {
            STREAM_PRIME_MIN_MS
        } else if ms > STREAM_PRIME_MAX_MS {
            STREAM_PRIME_MAX_MS
        } else {
            ms
        },
        None => STREAM_PRIME_DEFAULT_MS,
    };
    assert(ms * 48000 / 1000 == ms * 48 && ms * 48000 <= 96000000) by (nonlinear_arith)
        requires
            ms <= 2000,
    ;
    (ms as usize) * (TARGET_SAMPLE_RATE as usize) / 1000
}

/// What a switch from stream `old_stream` to `new_stream` does with the
/// chunks still queued behind the one that started the new stream (given as
/// their stream ids, in queue order): chunks of the new stream are kept, in
/// order, to be played after it; all others are dropped. Returns the
/// positions kept and the number dropped.
pub fn sort_queued_chunks(queued: &[u64], new_stream: u64) -> (r: (Vec<usize>, usize))
    ensures
        r.0@.len() + r.1 == queued@.len(),
        forall|k: int| 0 <= k < r.0@.len() ==> (#[trigger] r.0@[k]) < queued@.len() && queued@[r.0@[k] as int]
            == new_stream,
        forall|k: int, l: int| 0 <= k < l < r.0@.len() ==> r.0@[k] < r.0@[l],
        forall|j: int| 0 <= j < queued@.len() && queued@[j] == new_stream ==> r.0@.contains(j as usize),
{
    let mut kept: Vec<usize> = Vec::new();
    let mut dropped: usize = 0;
    let mut j: usize = 0;
    while j < queued.len()
        invariant
            j <= queued@.len(),
            kept@.len() + dropped == j,
            forall|k: int| 0 <= k < kept@.len() ==> (#[trigger] kept@[k]) < j && queued@[kept@[k] as int]
                == new_stream,
            forall|k: int, l: int| 0 <= k < l < kept@.len() ==> kept@[k] < kept@[l],
            forall|i: int| 0 <= i < j && queued@[i] == new_stream ==> kept@.contains(i as usize),
        decreases queued@.len() - j,
    {
        if queued[j] == new_stream {
            let ghost before = kept@;
            kept.push(j);
            assert forall|i: int| 0 <= i < j + 1 && queued@[i] == new_stream implies kept@.contains(
                i as usize,
            ) by {
                if i < j {
                    let k = choose|k: int| 0 <= k < before.len() && before[k] == i as usize;
                    assert(kept@[k] == i as usize);
                } else {
                    assert(kept@[kept@.len() - 1] == j);
                }
            }
        } else {
            dropped += 1;
        }
        j += 1;
    }
    (kept, dropped)
}

/// Largest number of frames taken from the ring by one output callback.
pub const MAX_CALLBACK_FRAMES: usize = 8192;

/// Preferred number of output channels.
pub const TARGET_CHANNELS: u16 = 1;

/// One output configuration range a device offers, as far as the choice
/// goes.
#[derive(Debug, Clone, Copy, PartialEq, Eq, Structural)]
pub struct OutputRange {
    pub channels: u16,
    /// Whether its sample format is signed 16-bit.
    pub is_i16: bool,
    pub min_rate: u32,
    pub max_rate: u32,
}

/// The rate of `r` closest to 48 kHz.
pub open spec fn range_rate(r: OutputRange) -> u32 {
    if TARGET_SAMPLE_RATE < r.min_rate {
        r.min_rate
    } else if TARGET_SAMPLE_RATE > r.max_rate {
        r.max_rate
    } else {
        TARGET_SAMPLE_RATE
    }
}

/// How far `r` is from the preferred output (lower is better): 100 for a
/// format other than 16-bit, 10 for stereo, plus the distance of its
/// closest rate to 48 kHz. `None` for more than two channels, which are
/// not used.
pub open spec fn range_score(r: OutputRange) -> Option<int> {
    if r.channels != TARGET_CHANNELS && r.channels != 2 {
        None
    } else {
        let rate = range_rate(r) as int;
        Some(
            (if r.is_i16 {
                0int
            } else {
                100int
            }) + (if rate >= 48000 {
                rate - 48000
            } else {
                48000 - rate
            }) + (if r.channels == TARGET_CHANNELS {
                0int
            } else {
                10int
            }),
        )
    }
}

/// The score of one range (see [`range_score`]) and the rate to use with it.
pub fn output_range_score(r: OutputRange) -> (s: Option<(u32, u32)>)
    requires
        r.min_rate <= r.max_rate,
    ensures
        match s {
            Some((score, rate)) => range_score(r) == Some(score as int) && rate == range_rate(r),
            None => range_score(r) is None,
        },
{
    let channel_penalty: u32 = if r.channels == TARGET_CHANNELS {
        0
    } else if r.channels == 2 {
        10
    } else {
        return None;
    };
    let format_penalty: u32 = if r.is_i16 {
        0
    } else {
        100
    };
    let rate: u32 = if TARGET_SAMPLE_RATE < r.min_rate {
        r.min_rate
    } else if TARGET_SAMPLE_RATE > r.max_rate {
        r.max_rate
    } else {
        TARGET_SAMPLE_RATE
    };
    let rate_penalty: u32 = if rate >= TARGET_SAMPLE_RATE {
        rate - TARGET_SAMPLE_RATE
    } else {
        TARGET_SAMPLE_RATE - rate
    };
    Some((format_penalty + rate_penalty + channel_penalty, rate))
}

/// The output configuration to use among the ranges a device offers: the
/// first range of lowest score (see [`range_score`]), with its rate
/// closest to 48 kHz; refused when no range has a score.
pub fn best_output_config(ranges: &[OutputRange]) -> (r: Result<(usize, u32), AudioError>)
    requires
        forall|k: int| 0 <= k < ranges@.len() ==> (#[trigger] ranges@[k]).min_rate <= ranges@[k].max_rate,
    ensures
        match r {
            Ok((i, rate)) => {
                &&& i < ranges@.len()
                &&& range_score(ranges@[i as int]) is Some
                &&& rate == range_rate(ranges@[i as int])
                &&& forall|k: int| 0 <= k < ranges@.len() && (#[trigger] range_score(ranges@[k])) is Some ==> range_score(
                    ranges@[i as int],
                )->0 <= range_score(ranges@[k])->0
                &&& forall|k: int| 0 <= k < i && (#[trigger] range_score(ranges@[k])) is Some ==> range_score(
                    ranges@[i as int],
                )->0 < range_score(ranges@[k])->0
            },
            Err(e) => {
                &&& forall|k: int| 0 <= k < ranges@.len() ==> (#[trigger] range_score(ranges@[k])) is None
                &&& e matches AudioError::DeviceError(m) && m@ == "No matching output config found"@
            },
        },
{
    let mut best: Option<(usize, u32)> = None;
    let mut best_score: u32 = u32::MAX;
    let mut j: usize = 0;
    while j < ranges.len()
        invariant
            j <= ranges@.len(),
            forall|k: int| 0 <= k < ranges@.len() ==> (#[trigger] ranges@[k]).min_rate <= ranges@[k].max_rate,
            match best {
                Some((i, rate)) => {
                    &&& i < j
                    &&& range_score(ranges@[i as int]) == Some(best_score as int)
                    &&& rate == range_rate(ranges@[i as int])
                    &&& forall|k: int| 0 <= k < j && (#[trigger] range_score(ranges@[k])) is Some ==> best_score
                        <= range_score(ranges@[k])->0
                    &&& forall|k: int| 0 <= k < i && (#[trigger] range_score(ranges@[k])) is Some ==> best_score
                        < range_score(ranges@[k])->0
                },
                None => forall|k: int| 0 <= k < j ==> (#[trigger] range_score(ranges@[k])) is None,
            },
        decreases ranges@.len() - j,
    {
        match output_range_score(ranges[j]) {
            Some((score, rate)) => {
                if best.is_none() || score < best_score {
                    best = Some((j, rate));
                    best_score = score;
                }
            },
            None => {},
        }
        j += 1;
    }
    match best {
        Some(b) => Ok(b),
        None => Err(AudioError::DeviceError(string_of("No matching output config found"))),
    }
}

/// Mono, the preferred channel count (`TARGET_CHANNELS` is 1), is preferred
/// over stereo: a stereo range scores exactly 10 more than the same range in
/// mono, so among ranges equal in format and rates mono is chosen.
pub proof fn lemma_mono_preferred(r: OutputRange)
    requires
        r.channels == 1,
    ensures
        range_score(r) is Some,
        range_score(OutputRange { channels: 2, ..r }) == Some(range_score(r)->0 + 10),
{
}

/// Signed 16-bit samples are preferred: a range of another format scores
/// exactly 100 more than the same range in 16-bit.
pub proof fn lemma_i16_preferred(r: OutputRange)
    requires
        r.is_i16,
        r.channels == 1 || r.channels == 2,
    ensures
        range_score(r) is Some,
        range_score(OutputRange { is_i16: false, ..r }) == Some(range_score(r)->0 + 100),
{
}

/// Ranges of neither one nor two channels are never used.
pub proof fn lemma_other_channel_counts_unused(r: OutputRange)
    requires
        r.channels != 1,
        r.channels != 2,
    ensures
        range_score(r) is None,
{
}

/// The rate used with a range is the one in it closest to 48 kHz, and its
/// distance from 48 kHz is what the score counts: a mono 16-bit range that
/// offers 48 kHz scores 0, the best possible.
pub proof fn lemma_rate_choice(r: OutputRange, x: u32)
    requires
        r.min_rate <= r.max_rate,
        r.min_rate <= x <= r.max_rate,
    ensures
        r.min_rate <= range_rate(r) <= r.max_rate,
        (if range_rate(r) >= 48000 {
            range_rate(r) - 48000
        } else {
            48000 - range_rate(r)
        }) <= (if x >= 48000 {
            x - 48000
        } else {
            48000 - x
        }),
        r.min_rate <= 48000 <= r.max_rate ==> range_rate(r) == 48000,
        r.channels == 1 && r.is_i16 && r.min_rate <= 48000 <= r.max_rate ==> range_score(r) == Some(0int),
        range_score(r) matches Some(sc) ==> sc >= 0,
{
}

/// What the output callback does with the next buffer.
#[derive(Debug, Clone, Copy, PartialEq, Eq, Structural)]
pub enum CallbackAction {
    /// Empty the ring and play silence: a clear was requested.
    Clear,
    /// Play silence without taking from the ring: priming.
    Silence,
    /// Play from the ring.
    Play,
}

/// The callback's choice: a requested clear first, then silence while
/// priming, else play.
pub fn callback_action(clear_requested: bool, playing: bool) -> (a: CallbackAction)
    ensures
        a == if clear_requested {
            CallbackAction::Clear
        } else if !playing {
            CallbackAction::Silence
        } else {
            CallbackAction::Play
        },
{
    if clear_requested {
        CallbackAction::Clear
    } else if !playing {
        CallbackAction::Silence
    } else {
        CallbackAction::Play
    }
}

/// Fills an interleaved buffer of `channels` channels from mono samples:
/// frame `i` carries `mono[i]` on every channel, and what follows the mono
/// samples is silence. Returns the number of whole frames left silent.
pub fn fill_interleaved(out: &mut [i16], mono: &[i16], channels: usize) -> (padded: usize)
    requires
        channels > 0,
        mono@.len() <= (old(out)@.len() as int) / (channels as int),
    ensures
        final(out)@.len() == old(out)@.len(),
        forall|k: int|
            0 <= k < final(out)@.len() ==> #[trigger] final(out)@[k] == if k / (channels as int) < mono@.len() {
                mono@[k / (channels as int)]
            } else {
                0i16
            },
        padded == (old(out)@.len() as int) / (channels as int) - mono@.len(),
{
    let n = out.len();
    let frames = n / channels;
    let mut k: usize = 0;
    while k < n
        invariant
            k <= n,
            n == out@.len(),
            frames == (n as int) / (channels as int),
            channels > 0,
            mono@.len() <= frames,
            forall|q: int|
                0 <= q < k ==> #[trigger] out@[q] == if q / (channels as int) < mono@.len() {
                    mono@[q / (channels as int)]
                } else {
                    0i16
                },
        decreases n - k,
    {
        let f = k / channels;
        if f < mono.len() {
            out[k] = mono[f];
        } else {
            out[k] = 0;
        }
        k += 1;
    }
    frames - mono.len()
}

/// Lowers a shared minimum to `val` if `val` is smaller (one atomic
/// read-modify-write). Nothing is stated of the stored value: other threads
/// update it too.
pub fn atomic_min_u64(slot: &std::sync::atomic::AtomicU64, val: u64) {
    slot.fetch_min(val, std::sync::atomic::Ordering::Relaxed);
}

/// Raises a shared maximum to `val` if `val` is larger (one atomic
/// read-modify-write). Nothing is stated of the stored value: other threads
/// update it too.
pub fn atomic_max_u64(slot: &std::sync::atomic::AtomicU64, val: u64) {
    slot.fetch_max(val, std::sync::atomic::Ordering::Relaxed);
}

/// A command found waiting in the playback queue when the queue is drained.
pub enum QueuedCommand<D, T> {
    /// Audio of stream `stream_id`.
    Chunk { data: D, stream_id: u64 },
    /// A request to be told when playback is complete.
    EndStream(T),
    Abort,
}

/// The completion requests among queued commands, in queue order.
pub open spec fn queued_tokens<D, T>(q: Seq<QueuedCommand<D, T>>) -> Seq<T>
    decreases q.len(),
{
    if q.len() == 0 {
        Seq::empty()
    } else {
        let rest = queued_tokens(q.drop_last());
        match q.last() {
            QueuedCommand::EndStream(t) => rest.push(t),
            _ => rest,
        }
    }
}

/// The audio of stream `stream_id` among queued commands, in queue order.
pub open spec fn queued_chunks_of<D, T>(q: Seq<QueuedCommand<D, T>>, stream_id: u64) -> Seq<D>
    decreases q.len(),
{
    if q.len() == 0 {
        Seq::empty()
    } else {
        let rest = queued_chunks_of(q.drop_last(), stream_id);
        match q.last() {
            QueuedCommand::Chunk { data, stream_id: s } => if s == stream_id {
                rest.push(data)
            } else {
                rest
            },
            _ => rest,
        }
    }
}

/// The number of audio chunks among queued commands.
pub open spec fn queued_chunk_count<D, T>(q: Seq<QueuedCommand<D, T>>) -> nat
    decreases q.len(),
{
    if q.len() == 0 {
        0
    } else {
        queued_chunk_count(q.drop_last()) + if q.last() is Chunk {
            1nat
        } else {
            0nat
        }
    }
}

/// The chunks of one stream are among all the chunks queued.
proof fn lemma_chunks_of_within_count<D, T>(q: Seq<QueuedCommand<D, T>>, stream_id: u64)
    ensures
        queued_chunks_of(q, stream_id).len() <= queued_chunk_count(q),
    decreases q.len(),
{
    if q.len() > 0 {
        lemma_chunks_of_within_count(q.drop_last(), stream_id);
    }
}

/// What a chunk that starts a new stream asks of the playback thread.
pub struct StreamStart<D, T> {
    /// Empty the ring buffer: the previous stream's audio is dropped.
    pub clear_ring: bool,
    /// Completion requests to answer now.
    pub signal: Vec<T>,
    /// Queued audio of the new stream, to play right after the chunk.
    pub follow: Vec<D>,
    /// Queued chunks thrown away.
    pub dropped: usize,
}

/// The decisions of the playback thread: which stream is playing, whether
/// the ring is released to the output (rather than priming), and who waits
/// to be told that playback is complete. The ring buffer, the output
/// device and the command queue stay with the thread; it reports their
/// state with each event and carries out what comes back.
pub struct PlaybackControl<T> {
    current_stream: u64,
    playing: bool,
    waiting: Vec<T>,
}

impl<T> PlaybackControl<T> {
    /// The stream being played; 0 when none.
    pub closed spec fn stream(&self) -> u64 {
        self.current_stream
    }

    /// Whether the ring is released to the output.
    pub closed spec fn released(&self) -> bool {
        self.playing
    }

    /// Completion requests not answered yet, oldest first.
    pub closed spec fn waiters(&self) -> Seq<T> {
        self.waiting@
    }

    pub fn new() -> (r: Self)
        ensures
            r.stream() == 0,
            !r.released(),
            r.waiters().len() == 0,
    {
        Self { current_stream: 0, playing: false, waiting: Vec::new() }
    }

    pub fn current_stream_id(&self) -> (id: u64)
        ensures
            id == self.stream(),
    {
        self.current_stream
    }

    /// Whether the output should play from the ring (else it plays silence).
    pub fn is_playing(&self) -> (b: bool)
        ensures
            b == self.released(),
    {
        self.playing
    }

    /// Whether a chunk of `stream_id` interrupts another stream, so that the
    /// queue is to be drained before [`Self::start_chunk`].
    pub fn is_switch(&self, stream_id: u64) -> (b: bool)
        ensures
            b == (stream_id != self.stream() && self.stream() != 0),
    {
        stream_id != self.current_stream && self.current_stream != 0
    }

    /// Answers every waiting request: they are handed back, oldest first.
    fn take_waiting(&mut self) -> (r: Vec<T>)
        ensures
            r@ == old(self).waiters(),
            final(self).waiters().len() == 0,
            final(self).stream() == old(self).stream(),
            final(self).released() == old(self).released(),
    {
        let mut taken: Vec<T> = Vec::new();
        std::mem::swap(&mut taken, &mut self.waiting);
        taken
    }

    /// Sorts drained commands: completion requests join the waiting ones,
    /// audio of `keep` is collected, all other audio is counted as dropped.
    fn absorb_queue<D>(&mut self, drained: Vec<QueuedCommand<D, T>>, keep: u64) -> (r: (Vec<D>, usize))
        ensures
            final(self).waiters() == old(self).waiters() + queued_tokens(drained@),
            r.0@ == queued_chunks_of(drained@, keep),
            r.1 == queued_chunk_count(drained@) - queued_chunks_of(drained@, keep).len(),
            r.0@.len() + r.1 == queued_chunk_count(drained@),
            queued_chunk_count(drained@) <= drained@.len(),
            final(self).stream() == old(self).stream(),
            final(self).released() == old(self).released(),
    {
        let ghost orig = drained@;
        let ghost w0 = self.waiting@;
        let mut drained = drained;
        let mut kept: Vec<D> = Vec::new();
        let mut count: usize = 0;
        let mut dropped: usize = 0;
        let mut i: usize = 0;
        assert(drained@.len() == drained.len());
        proof {
            lemma_chunks_of_within_count(orig, keep);
        }
        while drained.len() > 0
            invariant
                i <= orig.len(),
                orig.len() <= usize::MAX,
                drained@ == orig.subrange(i as int, orig.len() as int),
                self.waiting@ == w0 + queued_tokens(orig.subrange(0, i as int)),
                kept@ == queued_chunks_of(orig.subrange(0, i as int), keep),
                count == queued_chunk_count(orig.subrange(0, i as int)),
                dropped == count - kept@.len(),
                kept@.len() <= count,
                count <= i,
                self.current_stream == old(self).current_stream,
                self.playing == old(self).playing,
            decreases drained@.len(),
        {
            let ghost pre = orig.subrange(0, i as int);
            let cmd = drained.remove(0);
            let ghost next = orig.subrange(0, i + 1);
            assert(next.drop_last() =~= pre);
            assert(next.last() == cmd);
            proof {
                lemma_chunks_of_within_count(pre, keep);
            }
            match cmd {
                QueuedCommand::Chunk { data, stream_id } => {
                    count += 1;
                    if stream_id == keep {
                        kept.push(data);
                    } else {
                        dropped += 1;
                    }
                },
                QueuedCommand::EndStream(t) => {
                    self.waiting.push(t);
                },
                QueuedCommand::Abort => {},
            }
            i += 1;
        }
        assert(orig.subrange(0, i as int) =~= orig);
        (kept, dropped)
    }

    /// A chunk of `stream_id` arrives. `drained` holds what was drained from
    /// the queue behind it, which happens only on a switch (see
    /// [`Self::is_switch`]). On a switch the ring is cleared, every request
    /// waiting or drained is answered, and the drained audio of the new
    /// stream is kept, in order, to follow the chunk; the rest of the
    /// drained audio is dropped. A chunk of another stream than the current
    /// one makes it current and returns the output to priming.
    pub fn start_chunk<D>(&mut self, stream_id: u64, drained: Vec<QueuedCommand<D, T>>) -> (r: StreamStart<D, T>)
        requires
            !(stream_id != old(self).stream() && old(self).stream() != 0) ==> drained@.len() == 0,
        ensures
            final(self).stream() == stream_id,
            stream_id != old(self).stream() ==> !final(self).released(),
            stream_id == old(self).stream() ==> final(self).released() == old(self).released(),
            (stream_id != old(self).stream() && old(self).stream() != 0) ==> {
                &&& r.clear_ring
                &&& r.signal@ == old(self).waiters() + queued_tokens(drained@)
                &&& r.follow@ == queued_chunks_of(drained@, stream_id)
                &&& r.dropped == queued_chunk_count(drained@) - queued_chunks_of(drained@, stream_id).len()
                &&& final(self).waiters().len() == 0
            },
            !(stream_id != old(self).stream() && old(self).stream() != 0) ==> {
                &&& !r.clear_ring
                &&& r.signal@.len() == 0
                &&& r.follow@.len() == 0
                &&& r.dropped == 0
                &&& final(self).waiters() == old(self).waiters()
            },
    {
        if stream_id != self.current_stream {
            if self.current_stream != 0 {
                let (follow, dropped) = self.absorb_queue(drained, stream_id);
                let signal = self.take_waiting();
                self.current_stream = stream_id;
                self.playing = false;
                StreamStart { clear_ring: true, signal, follow, dropped }
            } else {
                self.current_stream = stream_id;
                self.playing = false;
                StreamStart { clear_ring: false, signal: Vec::new(), follow: Vec::new(), dropped: 0 }
            }
        } else {
            StreamStart { clear_ring: false, signal: Vec::new(), follow: Vec::new(), dropped: 0 }
        }
    }

    /// Playback is complete when somebody waits for it, nothing is queued
    /// and the ring is empty: the output returns to silence, no stream is
    /// current, and every waiting request is answered.
    pub fn settle(&mut self, queue_empty: bool, ring_len: usize) -> (signal: Vec<T>)
        ensures
            (old(self).waiters().len() > 0 && queue_empty && ring_len == 0) ==> {
                &&& signal@ == old(self).waiters()
                &&& final(self).waiters().len() == 0
                &&& !final(self).released()
                &&& final(self).stream() == 0
            },
            !(old(self).waiters().len() > 0 && queue_empty && ring_len == 0) ==> {
                &&& signal@.len() == 0
                &&& final(self).waiters() == old(self).waiters()
                &&& final(self).released() == old(self).released()
                &&& final(self).stream() == old(self).stream()
            },
    {
        if self.waiting.len() > 0 && queue_empty && ring_len == 0 {
            self.playing = false;
            self.current_stream = 0;
            self.take_waiting()
        } else {
            Vec::new()
        }
    }

    /// After a chunk (and what follows it) went into the ring, which now
    /// holds `ring_len` samples: priming ends once the ring holds
    /// `prime_target` samples; then playback may be complete
    /// (see [`Self::settle`]).
    pub fn after_push(&mut self, ring_len: usize, prime_target: usize, queue_empty: bool) -> (signal: Vec<T>)
        ensures
            (old(self).waiters().len() > 0 && queue_empty && ring_len == 0) ==> {
                &&& signal@ == old(self).waiters()
                &&& final(self).waiters().len() == 0
                &&& !final(self).released()
                &&& final(self).stream() == 0
            },
            !(old(self).waiters().len() > 0 && queue_empty && ring_len == 0) ==> {
                &&& signal@.len() == 0
                &&& final(self).waiters() == old(self).waiters()
                &&& final(self).released() == (old(self).released() || ring_len >= prime_target)
                &&& final(self).stream() == old(self).stream()
            },
    {
        if !self.playing && ring_len >= prime_target {
            self.playing = true;
        }
        self.settle(queue_empty, ring_len)
    }

    /// A request to be told when playback is complete. A stream that ends
    /// before the ring reached the priming watermark is released to the
    /// output so that what is buffered drains.
    pub fn end_stream(&mut self, token: T, ring_len: usize)
        ensures
            final(self).waiters() == old(self).waiters().push(token),
            final(self).released() == (old(self).released() || ring_len > 0),
            final(self).stream() == old(self).stream(),
    {
        if !self.playing && ring_len > 0 {
            self.playing = true;
        }
        self.waiting.push(token);
    }

    /// Abort: the queue was drained into `drained`; its audio is dropped,
    /// the ring is to be cleared, the output returns to silence, no stream
    /// is current, and every request, waiting or drained, is answered.
    /// Returns the requests to answer and the number of chunks dropped.
    pub fn abort<D>(&mut self, drained: Vec<QueuedCommand<D, T>>) -> (r: (Vec<T>, usize))
        ensures
            r.0@ == old(self).waiters() + queued_tokens(drained@),
            r.1 == queued_chunk_count(drained@),
            final(self).waiters().len() == 0,
            !final(self).released(),
            final(self).stream() == 0,
    {
        assert(drained@.len() == drained.len());
        let (kept, dropped) = self.absorb_queue(drained, 0);
        let n = kept.len() + dropped;
        self.playing = false;
        self.current_stream = 0;
        (self.take_waiting(), n)
    }
}

} // verus!
