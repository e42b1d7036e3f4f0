//! The s16le capture source: its types, the choice of input configuration,
//! and the bookkeeping of the capture callback, which picks one channel out
//! of interleaved 16-bit frames and cuts it into s16le chunks.
//!
//! Opening the device and the capture thread stay outside the library.
use vstd::prelude::*;
use crate::audio_capture::channel_samples;
use crate::audio_sink::{i16_from_le, s16le_samples};
use crate::text::{decimal_chars, push_decimal, push_str, string_of};

verus! {

/// Samples per chunk.
pub const CHUNK_SIZE: usize = 1280;

/// Bytes per s16le chunk.
pub const CHUNK_BYTES: usize = 2560;

/// The capture rate the hardware must deliver.
pub const CAPTURE_SAMPLE_RATE: u32 = 16000;

#[derive(Debug)]
pub enum AudioCaptureError {
    NoDevices,
    Device(String),
    Stream(String),
    Config(String),
}

/// Audio capture configuration.
#[derive(Debug, Clone)]
pub struct AudioCaptureConfig {
    /// Device to capture from (`None`: the default device).
    pub device_id: Option<String>,
    /// Channel to capture (0-based).
    pub channel: u32,
}

impl Default for AudioCaptureConfig {
    fn default() -> (r: Self)
        ensures
            r.device_id is None,
            r.channel == 0,
    {
        Self { device_id: None, channel: 0 }
    }
}

/// One input configuration range a device offers, as far as the choice
/// goes.
#[derive(Debug, Clone, Copy, PartialEq, Eq, Structural)]
pub struct InputRange {
    pub channels: u16,
    /// Whether its sample format is signed 16-bit.
    pub is_i16: bool,
    pub min_rate: u32,
    pub max_rate: u32,
}

/// The rate of `r` closest to 16 kHz.
pub open spec fn input_rate(r: InputRange) -> u32 {
    if CAPTURE_SAMPLE_RATE < r.min_rate {
        r.min_rate
    } else if CAPTURE_SAMPLE_RATE > r.max_rate {
        r.max_rate
    } else {
        CAPTURE_SAMPLE_RATE
    }
}

/// How `r` ranks (lower is better): first its format (16-bit before any
/// other), then the distance of its closest rate to 16 kHz. `None` when it
/// lacks the channel to capture.
pub open spec fn input_rank(r: InputRange, channel: u32) -> Option<(int, int)> {
    if channel >= r.channels {
        None
    } else {
        let rate = input_rate(r) as int;
        Some(
            (
                if r.is_i16 {
                    0int
                } else {
                    3int
                },
                if rate >= 16000 {
                    rate - 16000
                } else {
                    16000 - rate
                },
            ),
        )
    }
}

/// `a` ranks strictly before `b`.
pub open spec fn rank_before(a: (int, int), b: (int, int)) -> bool {
    a.0 < b.0 || (a.0 == b.0 && a.1 < b.1)
}

/// The input configuration to use: the first range of best rank (see
/// [`input_rank`]) among those that have the channel, with its rate
/// closest to 16 kHz; refused when none has the channel.
pub fn best_input_config(ranges: &[InputRange], channel: u32) -> (r: Result<(usize, u32), AudioCaptureError>)
    requires
        forall|k: int| 0 <= k < ranges@.len() ==> (#[trigger] ranges@[k]).min_rate <= ranges@[k].max_rate,
    ensures
        match r {
            Ok((i, rate)) => {
                &&& i < ranges@.len()
                &&& input_rank(ranges@[i as int], channel) is Some
                &&& rate == input_rate(ranges@[i as int])
                &&& forall|k: int|
                    0 <= k < ranges@.len() && (#[trigger] input_rank(ranges@[k], channel)) is Some ==> !rank_before(
                        input_rank(ranges@[k], channel)->0,
                        input_rank(ranges@[i as int], channel)->0,
                    )
                &&& forall|k: int|
                    0 <= k < i && (#[trigger] input_rank(ranges@[k], channel)) is Some ==> rank_before(
                        input_rank(ranges@[i as int], channel)->0,
                        input_rank(ranges@[k], channel)->0,
                    )
            },
            Err(e) => {
                &&& forall|k: int| 0 <= k < ranges@.len() ==> (#[trigger] input_rank(ranges@[k], channel)) is None
                &&& e matches AudioCaptureError::Config(m) && m@ == "No supported input configs found"@
            },
        },
{
    let mut best: Option<(usize, u32)> = None;
    let mut best_format: u8 = 255;
    let mut best_diff: u32 = u32::MAX;
    let mut j: usize = 0;
    while j < ranges.len()
        invariant
            j <= ranges@.len(),
            forall|k: int| 0 <= k < ranges@.len() ==> (#[trigger] ranges@[k]).min_rate <= ranges@[k].max_rate,
            match best {
                Some((i, rate)) => {
                    &&& i < j
                    &&& input_rank(ranges@[i as int], channel) == Some((best_format as int, best_diff as int))
                    &&& rate == input_rate(ranges@[i as int])
                    &&& forall|k: int|
                        0 <= k < j && (#[trigger] input_rank(ranges@[k], channel)) is Some ==> !rank_before(
                            input_rank(ranges@[k], channel)->0,
                            (best_format as int, best_diff as int),
                        )
                    &&& forall|k: int|
                        0 <= k < i && (#[trigger] input_rank(ranges@[k], channel)) is Some ==> rank_before(
                            (best_format as int, best_diff as int),
                            input_rank(ranges@[k], channel)->0,
                        )
                },
                None => forall|k: int| 0 <= k < j ==> (#[trigger] input_rank(ranges@[k], channel)) is None,
            },
        decreases ranges@.len() - j,
    {
        let r = ranges[j];
        if channel < r.channels as u32 {
            let format: u8 = if r.is_i16 {
                0
            } else {
                3
            };
            let rate: u32 = if CAPTURE_SAMPLE_RATE < r.min_rate {
                r.min_rate
            } else if CAPTURE_SAMPLE_RATE > r.max_rate {
                r.max_rate
            } else {
                CAPTURE_SAMPLE_RATE
            };
            let diff: u32 = if rate >= CAPTURE_SAMPLE_RATE {
                rate - CAPTURE_SAMPLE_RATE
            } else {
                CAPTURE_SAMPLE_RATE - rate
            };
            if best.is_none() || format < best_format || (format == best_format && diff < best_diff) {
                best = Some((j, rate));
                best_format = format;
                best_diff = diff;
            }
        }
        j += 1;
    }
    match best {
        Some(b) => Ok(b),
        None => Err(AudioCaptureError::Config(string_of("No supported input configs found"))),
    }
}

/// Checks the configuration a stream is opened with: the channel must
/// exist, the format must be 16-bit (`format_name` is how the format is
/// written in the message otherwise), and the rate 16 kHz.
pub fn check_stream_config(channel: u32, channels: u16, is_i16: bool, format_name: &str, rate: u32) -> (r: Result<(), AudioCaptureError>)
    ensures
        channel >= channels ==> (r matches Err(AudioCaptureError::Config(m)) && m@ == "Selected channel "@
            + decimal_chars(channel as nat) + " is not available (device has "@ + decimal_chars(
            channels as nat,
        ) + " channels)"@),
        channel < channels && !is_i16 ==> (r matches Err(AudioCaptureError::Config(m)) && m@
            == "Expected I16 sample format, got "@ + format_name@),
        channel < channels && is_i16 && rate != CAPTURE_SAMPLE_RATE ==> (r matches Err(
            AudioCaptureError::Config(m),
        ) && m@ == "Expected 16kHz sample rate, got "@ + decimal_chars(rate as nat) + "Hz"@),
        channel < channels && is_i16 && rate == CAPTURE_SAMPLE_RATE ==> r is Ok,
{
    if channel >= channels as u32 {
        let mut m = string_of("Selected channel ");
        push_decimal(&mut m, channel as u64);
        push_str(&mut m, " is not available (device has ");
        push_decimal(&mut m, channels as u64);
        push_str(&mut m, " channels)");
        return Err(AudioCaptureError::Config(m));
    }
    if !is_i16 {
        let mut m = string_of("Expected I16 sample format, got ");
        push_str(&mut m, format_name);
        return Err(AudioCaptureError::Config(m));
    }
    if rate != CAPTURE_SAMPLE_RATE {
        let mut m = string_of("Expected 16kHz sample rate, got ");
        push_decimal(&mut m, rate as u64);
        push_str(&mut m, "Hz");
        return Err(AudioCaptureError::Config(m));
    }
    Ok(())
}

/// The two little-endian bytes of a 16-bit sample.
pub open spec fn le_bytes(s: i16) -> Seq<u8> {
    let u = #[verifier::truncate] (s as u16);
    seq![(u % 256) as u8, (u / 256) as u8]
}

/// Samples written as s16le bytes, in order.
pub open spec fn s16le_bytes(samples: Seq<i16>) -> Seq<u8>
    decreases samples.len(),
{
    if samples.len() == 0 {
        Seq::empty()
    } else {
        s16le_bytes(samples.drop_last()) + le_bytes(samples.last())
    }
}

proof fn lemma_s16le_bytes_len(samples: Seq<i16>)
    ensures
        s16le_bytes(samples).len() == 2 * samples.len(),
    decreases samples.len(),
{
    if samples.len() > 0 {
        lemma_s16le_bytes_len(samples.drop_last());
    }
}

/// A sample written as little-endian bytes reads back as the same sample.
pub proof fn lemma_le_bytes_roundtrip(s: i16)
    ensures
        i16_from_le(le_bytes(s)[0], le_bytes(s)[1]) == s,
{
    assert(s < 0 ==> #[verifier::truncate] (s as u16) == s + 65536) by (bit_vector);
    assert(s >= 0 ==> #[verifier::truncate] (s as u16) == s) by (bit_vector);
    let u = #[verifier::truncate] (s as u16);
    assert(((u % 256) as u8) + 256 * ((u / 256) as u8) == u) by (bit_vector);
}

/// Samples written as s16le bytes read back as the same samples.
pub proof fn lemma_s16le_roundtrip(samples: Seq<i16>)
    ensures
        s16le_samples(s16le_bytes(samples)) == samples,
    decreases samples.len(),
{
    lemma_s16le_bytes_len(samples);
    if samples.len() > 0 {
        let init = samples.drop_last();
        lemma_s16le_roundtrip(init);
        lemma_s16le_bytes_len(init);
        lemma_le_bytes_roundtrip(samples.last());
        let b = s16le_bytes(samples);
        assert(b == s16le_bytes(init) + le_bytes(samples.last()));
        assert forall|k: int| 0 <= k < samples.len() implies #[trigger] s16le_samples(b)[k] == samples[k] by {
            if k < samples.len() - 1 {
                assert(b[2 * k] == s16le_bytes(init)[2 * k]);
                assert(b[2 * k + 1] == s16le_bytes(init)[2 * k + 1]);
                assert(s16le_samples(s16le_bytes(init))[k] == init[k]);
            } else {
                assert(b[2 * k] == le_bytes(samples.last())[0]);
                assert(b[2 * k + 1] == le_bytes(samples.last())[1]);
            }
        }
        assert(s16le_samples(b) =~= samples);
    }
}

/// Collects one channel of interleaved 16-bit frames as s16le bytes and
/// hands them out in chunks of [`CHUNK_BYTES`].
pub struct S16leChunker {
    buffer: Vec<u8>,
}

impl View for S16leChunker {
    type V = Seq<u8>;

    /// The bytes waiting to be handed out.
    closed spec fn view(&self) -> Seq<u8> {
        self.buffer@
    }
}

impl S16leChunker {
    pub fn new() -> (r: Self)
        ensures
            r@.len() == 0,
    {
        Self { buffer: Vec::new() }
    }

    /// Adds the samples of `channel` (out of `channels` interleaved) as
    /// s16le bytes after those waiting.
    pub fn push_frames(&mut self, data: &[i16], channels: usize, channel: usize)
        requires
            channels > 0,
            old(self)@.len() + 2 * data@.len() <= usize::MAX,
        ensures
            final(self)@ == old(self)@ + s16le_bytes(channel_samples(data@, channels as nat, channel as nat)),
    {
        let mut i: usize = 0;
        while i < data.len()
            invariant
                i <= data@.len(),
                channels > 0,
                old(self)@.len() + 2 * data@.len() <= usize::MAX,
                self@ == old(self)@ + s16le_bytes(channel_samples(data@.subrange(0, i as int), channels as nat, channel as nat)),
            decreases data@.len() - i,
        {
            let ghost pre = data@.subrange(0, i as int);
            let ghost next = data@.subrange(0, i + 1);
            assert(next.drop_last() =~= pre);
            proof {
                lemma_channel_samples_len(pre, channels as nat, channel as nat);
                lemma_s16le_bytes_len(channel_samples(pre, channels as nat, channel as nat));
            }
            if i % channels == channel {
                let s = data[i];
                let u = #[verifier::truncate] (s as u16);
                self.buffer.push((u % 256) as u8);
                self.buffer.push((u / 256) as u8);
                let ghost cs = channel_samples(pre, channels as nat, channel as nat);
                assert(channel_samples(next, channels as nat, channel as nat) == cs.push(s));
                assert(cs.push(s).drop_last() =~= cs);
                assert(s16le_bytes(cs.push(s)) == s16le_bytes(cs) + le_bytes(s));
                assert(self@ =~= old(self)@ + s16le_bytes(cs.push(s)));
            } else {
                assert(channel_samples(next, channels as nat, channel as nat) == channel_samples(pre, channels as nat, channel as nat));
            }
            i += 1;
        }
        assert(data@.subrange(0, i as int) =~= data@);
    }

    /// Hands out the oldest [`CHUNK_BYTES`] bytes once that many wait.
    pub fn pop_chunk(&mut self) -> (chunk: Option<Vec<u8>>)
        ensures
            old(self)@.len() >= CHUNK_BYTES ==> (chunk matches Some(c) && c@ == old(self)@.subrange(0, CHUNK_BYTES as int)
                && final(self)@ == old(self)@.subrange(CHUNK_BYTES as int, old(self)@.len() as int)),
            old(self)@.len() < CHUNK_BYTES ==> chunk is None && final(self)@ == old(self)@,
    {
        if self.buffer.len() < CHUNK_BYTES {
            return None;
        }
        let n = self.buffer.len();
        let mut chunk: Vec<u8> = Vec::new();
        let mut rest: Vec<u8> = Vec::new();
        let mut k: usize = 0;
        while k < n
            invariant
                k <= n,
                n == self.buffer@.len(),
                CHUNK_BYTES <= n,
                k <= CHUNK_BYTES ==> chunk@ == self.buffer@.subrange(0, k as int) && rest@.len() == 0,
                k > CHUNK_BYTES ==> chunk@ == self.buffer@.subrange(0, CHUNK_BYTES as int) && rest@
                    == self.buffer@.subrange(CHUNK_BYTES as int, k as int),
            decreases n - k,
        {
            if k < CHUNK_BYTES {
                chunk.push(self.buffer[k]);
                assert(self.buffer@.subrange(0, k + 1) =~= self.buffer@.subrange(0, k as int).push(self.buffer@[k as int]));
            } else {
                rest.push(self.buffer[k]);
                assert(self.buffer@.subrange(CHUNK_BYTES as int, k + 1) =~= self.buffer@.subrange(
                    CHUNK_BYTES as int,
                    k as int,
                ).push(self.buffer@[k as int]));
            }
            k += 1;
        }
        if n == CHUNK_BYTES {
            assert(rest@ =~= self.buffer@.subrange(CHUNK_BYTES as int, n as int));
        }
        self.buffer = rest;
        Some(chunk)
    }
}

proof fn lemma_channel_samples_len(data: Seq<i16>, channels: nat, channel: nat)
    ensures
        channel_samples(data, channels, channel).len() <= data.len(),
    decreases data.len(),
{
    if data.len() > 0 {
        lemma_channel_samples_len(data.drop_last(), channels, channel);
    }
}

} // verus!
