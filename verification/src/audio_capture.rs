//! Capture types, and the bookkeeping behind the capture callback: picking
//! one channel out of interleaved frames, cutting it into fixed-size chunks,
//! and keeping the most recent chunks.
//!
//! Opening the device and converting its sample format stay outside the
//! library; the callback hands the converted `i16` samples to these types.
use vstd::prelude::*;
use std::collections::VecDeque;

verus! {

/// Samples per chunk (80 ms at 16 kHz).
pub const CHUNK_SIZE: usize = 1280;

/// Chunks kept for looking back (about 3.2 s at 16 kHz).
pub const MAX_RING_BUFFER_SIZE: usize = 40;

#[derive(Debug)]
pub enum AudioCaptureError {
    NoDevices,
    Device(String),
    Stream(String),
    Config(String),
}

/// Audio capture configuration.
#[derive(Debug, Clone)]
pub struct AudioCaptureConfig {
    /// Device to capture from (`None`: the default device).
    pub device_id: Option<String>,
    /// Channel to capture (0-based).
    pub channel: u32,
    pub sample_rate: u32,
    pub channels: u16,
    pub buffer_size: usize,
}

impl Default for AudioCaptureConfig {
    fn default() -> (r: Self)
        ensures
            r.device_id is None,
            r.channel == 0,
            r.sample_rate == 16000,
            r.channels == 1,
            r.buffer_size == 1280,
    {
        Self { device_id: None, channel: 0, sample_rate: 16000, channels: 1, buffer_size: 1280 }
    }
}

/// Audio device information.
#[derive(Debug, Clone)]
pub struct AudioDeviceInfo {
    pub name: String,
    pub id: String,
    pub is_default: bool,
    pub channel_count: u32,
}

#[verifier::external_type_specification]
#[verifier::external_body]
pub struct ExInstant(std::time::Instant);

/// `Instant` is `Copy`; its `clone` hands back the same instant.
pub assume_specification[ <std::time::Instant as Clone>::clone ](i: &std::time::Instant) -> (r: std::time::Instant)
    ensures
        r == *i,
;

/// A chunk of captured samples and the time it was completed.
#[derive(Clone, Debug)]
pub struct AudioChunk {
    pub samples: Vec<i16>,
    pub timestamp: std::time::Instant,
}

/// The samples of `data` that belong to channel `channel` of `channels`
/// interleaved channels, in order.
pub open spec fn channel_samples(data: Seq<i16>, channels: nat, channel: nat) -> Seq<i16>
    decreases data.len(),
{
    if data.len() == 0 {
        Seq::empty()
    } else {
        let rest = channel_samples(data.drop_last(), channels, channel);
        if (data.len() - 1) % (channels as int) == channel {
            rest.push(data.last())
        } else {
            rest
        }
    }
}

/// The chunks laid end to end.
pub open spec fn flatten(chunks: Seq<Seq<i16>>) -> Seq<i16>
    decreases chunks.len(),
{
    if chunks.len() == 0 {
        Seq::empty()
    } else {
        flatten(chunks.drop_last()) + chunks.last()
    }
}

/// Collects one channel of interleaved frames into chunks of [`CHUNK_SIZE`]
/// samples; what does not fill a chunk yet waits for the next frames.
pub struct ChunkAccumulator {
    buffer: Vec<i16>,
}

impl View for ChunkAccumulator {
    type V = Seq<i16>;

    /// The samples waiting for the next chunk.
    closed spec fn view(&self) -> Seq<i16> {
        self.buffer@
    }
}

impl ChunkAccumulator {
    #[verifier::type_invariant]
    spec fn inv(self) -> bool {
        self.buffer@.len() < CHUNK_SIZE
    }

    pub fn new() -> (r: Self)
        ensures
            r@ == Seq::<i16>::empty(),
    {
        Self { buffer: Vec::new() }
    }

    /// Takes the samples of `channel` out of interleaved `data` and hands
    /// back every chunk they complete, oldest first. Nothing is lost or
    /// reordered: the waiting samples and the new ones are exactly the
    /// chunks followed by what waits afterwards, which is less than a chunk.
    pub fn push_frames(&mut self, data: &[i16], channels: usize, channel: usize) -> (chunks: Vec<Vec<i16>>)
        requires
            channels > 0,
        ensures
            old(self)@ + channel_samples(data@, channels as nat, channel as nat) == flatten(
                chunks@.map_values(|c: Vec<i16>| c@),
            ) + final(self)@,
            forall|k: int| 0 <= k < chunks@.len() ==> (#[trigger] chunks@[k])@.len() == CHUNK_SIZE,
            final(self)@.len() < CHUNK_SIZE,
    {
        proof {
            use_type_invariant(&*self);
        }
        let mut chunks: Vec<Vec<i16>> = Vec::new();
        let mut buffer: Vec<i16> = Vec::new();
        std::mem::swap(&mut buffer, &mut self.buffer);
        let ghost start = buffer@;
        let mut i: usize = 0;
        while i < data.len()
            invariant
                i <= data@.len(),
                channels > 0,
                buffer@.len() < CHUNK_SIZE,
                start + channel_samples(data@.take(i as int), channels as nat, channel as nat) == flatten(
                    chunks@.map_values(|c: Vec<i16>| c@),
                ) + buffer@,
                forall|k: int| 0 <= k < chunks@.len() ==> (#[trigger] chunks@[k])@.len() == CHUNK_SIZE,
            decreases data@.len() - i,
        {
            let ghost before_chunks = chunks@.map_values(|c: Vec<i16>| c@);
            let ghost before_buf = buffer@;
            proof {
                assert(data@.take(i + 1).drop_last() =~= data@.take(i as int));
                assert(data@.take(i + 1).last() == data@[i as int]);
            }
            let ghost picked_before = channel_samples(data@.take(i as int), channels as nat, channel as nat);
            let ghost picked_after = channel_samples(data@.take(i + 1), channels as nat, channel as nat);
            if i % channels == channel {
                assert(picked_after == picked_before.push(data@[i as int]));
                let ghost x = data@[i as int];
                assert(start + picked_before == flatten(before_chunks) + before_buf);
                assert((start + picked_before).push(x) =~= start + picked_after);
                assert((flatten(before_chunks) + before_buf).push(x) =~= flatten(before_chunks)
                    + before_buf.push(x));
                buffer.push(data[i]);
                if buffer.len() >= CHUNK_SIZE {
                    let mut full: Vec<i16> = Vec::new();
                    std::mem::swap(&mut full, &mut buffer);
                    chunks.push(full);
                    proof {
                        let after = chunks@.map_values(|c: Vec<i16>| c@);
                        assert(after.drop_last() =~= before_chunks);
                        assert(after.last() == before_buf.push(data@[i as int]));
                        assert(buffer@ =~= Seq::<i16>::empty());
                        assert(flatten(after) == flatten(before_chunks) + before_buf.push(data@[i as int]));
                        assert(start + picked_after =~= flatten(after) + buffer@);
                    }
                } else {
                    assert(start + picked_after =~= flatten(before_chunks) + buffer@);
                }
            } else {
                assert(picked_after == picked_before);
            }
            i += 1;
        }
        assert(data@.take(data@.len() as int) =~= data@);
        self.buffer = buffer;
        chunks
    }
}

/// The last `max` items of `s` (all of them when there are fewer).
pub open spec fn keep_last<T>(s: Seq<T>, max: nat) -> Seq<T> {
    if s.len() <= max {
        s
    } else {
        s.subrange(s.len() - max, s.len() as int)
    }
}

/// The most recent chunks, oldest first, at most [`MAX_RING_BUFFER_SIZE`].
pub struct RecentChunks {
    chunks: VecDeque<AudioChunk>,
}

impl View for RecentChunks {
    type V = Seq<AudioChunk>;

    closed spec fn view(&self) -> Seq<AudioChunk> {
        self.chunks@
    }
}

impl RecentChunks {
    #[verifier::type_invariant]
    spec fn inv(self) -> bool {
        self.chunks@.len() <= MAX_RING_BUFFER_SIZE
    }

    pub fn new() -> (r: Self)
        ensures
            r@ == Seq::<AudioChunk>::empty(),
    {
        Self { chunks: VecDeque::new() }
    }

    /// Appends a chunk, dropping the oldest ones beyond the limit.
    pub fn push(&mut self, chunk: AudioChunk)
        ensures
            final(self)@ == keep_last(old(self)@.push(chunk), MAX_RING_BUFFER_SIZE as nat),
    {
        proof {
            use_type_invariant(&*self);
        }
        let ghost all = self.chunks@.push(chunk);
        let mut chunks: VecDeque<AudioChunk> = VecDeque::new();
        std::mem::swap(&mut chunks, &mut self.chunks);
        chunks.push_back(chunk);
        if chunks.len() > MAX_RING_BUFFER_SIZE {
            let _ = chunks.pop_front();
            assert(chunks@ =~= keep_last(all, MAX_RING_BUFFER_SIZE as nat));
        }
        self.chunks = chunks;
    }

    /// Number of chunks held.
    pub fn len(&self) -> (n: usize)
        ensures
            n == self@.len(),
            n <= MAX_RING_BUFFER_SIZE,
    {
        proof {
            use_type_invariant(self);
        }
        self.chunks.len()
    }

    /// The largest number of chunks held.
    pub fn max_len(&self) -> (n: usize)
        ensures
            n == MAX_RING_BUFFER_SIZE,
    {
        MAX_RING_BUFFER_SIZE
    }

    /// All held samples, oldest first, as one buffer.
    pub fn flat_samples(&self) -> (r: Vec<i16>)
        ensures
            r@ == flatten(self@.map_values(|c: AudioChunk| c.samples@)),
    {
        let mut r: Vec<i16> = Vec::new();
        let n = self.chunks.len();
        let mut i: usize = 0;
        while i < n
            invariant
                i <= n,
                n == self@.len(),
                self@ == self.chunks@,
                r@ == flatten(self@.take(i as int).map_values(|c: AudioChunk| c.samples@)),
            decreases n - i,
        {
            let mut part = vstd::slice::slice_to_vec(self.chunks[i].samples.as_slice());
            r.append(&mut part);
            proof {
                let m = self@.take(i + 1).map_values(|c: AudioChunk| c.samples@);
                assert(m.drop_last() =~= self@.take(i as int).map_values(|c: AudioChunk| c.samples@));
            }
            i += 1;
        }
        assert(self@.take(n as int) =~= self@);
        r
    }
}

} // verus!
