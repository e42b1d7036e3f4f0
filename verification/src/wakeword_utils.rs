//! Sample accounting of streaming wake word features: which captured
//! samples are kept for the mel spectrogram, when a mel spectrogram is due
//! and over which samples, and which mel frames each embedding covers.
//!
//! The models themselves (mel spectrogram and embeddings, on floating-point
//! tensors) stay outside the library.
use vstd::prelude::*;
use crate::audio_capture::keep_last;

verus! {

/// Samples per feature chunk (80 ms at 16 kHz).
pub const FEATURE_CHUNK: usize = 1280;

/// Raw samples kept for the mel spectrogram (10 s at 16 kHz).
pub const MAX_RAW_BUFFER_SAMPLES: usize = 160000;

/// Samples before the new audio also fed to the mel spectrogram (3 frames of 160).
pub const MEL_CONTEXT_SAMPLES: usize = 480;

/// Mel frames kept (10 s at 97 frames per second).
pub const MAX_MEL_FRAMES: usize = 970;

/// Mel frames covered by one embedding.
pub const EMBEDDING_WINDOW_FRAMES: usize = 76;

/// Mel frames between the ends of successive embeddings of one step.
pub const EMBEDDING_STEP_FRAMES: usize = 8;

/// Where the samples of one call go.
pub open spec fn stream_split(accumulated: nat, input: Seq<i16>) -> (Seq<i16>, Seq<i16>) {
    let total = accumulated + input.len();
    if total >= FEATURE_CHUNK {
        let r = (total % (FEATURE_CHUNK as nat)) as int;
        (input.subrange(0, input.len() - r), input.subrange(input.len() - r, input.len() as int))
    } else {
        (input, Seq::empty())
    }
}

/// How one call divides its samples. When the samples so far reach a whole
/// chunk, a whole number of chunks (at least one) is processed and what is
/// left waits, fewer than a chunk; otherwise every sample is buffered and
/// nothing waits. Either way no sample is lost or repeated: the buffered
/// samples followed by those left waiting are the input.
pub proof fn lemma_stream_split_counts(accumulated: nat, input: Seq<i16>)
    requires
        accumulated < FEATURE_CHUNK,
    ensures
        ({
            let total = accumulated + input.len();
            let (buffered, rest) = stream_split(accumulated, input);
            &&& buffered + rest == input
            &&& if total >= FEATURE_CHUNK {
                let n = total - total % (FEATURE_CHUNK as nat);
                &&& n >= FEATURE_CHUNK
                &&& n % (FEATURE_CHUNK as int) == 0
                &&& total == n + rest.len()
                &&& rest.len() < FEATURE_CHUNK
            } else {
                &&& buffered == input
                &&& rest.len() == 0
            }
        }),
{
    let total = accumulated + input.len();
    let (buffered, rest) = stream_split(accumulated, input);
    if total >= FEATURE_CHUNK {
        let c: int = FEATURE_CHUNK as int;
        let t: int = total as int;
        vstd::arithmetic::div_mod::lemma_fundamental_div_mod(t, c);
        vstd::arithmetic::div_mod::lemma_mod_bound(t, c);
        let q: int = t / c;
        assert(q >= 1) by (nonlinear_arith)
            requires
                t == c * q + t % c,
                t % c < c,
                t >= c,
                c > 0,
        ;
        assert(c * q >= c) by (nonlinear_arith)
            requires
                q >= 1,
                c > 0,
        ;
        vstd::arithmetic::div_mod::lemma_mod_multiples_basic(q, c);
        assert(q * c == c * q) by (nonlinear_arith);
        assert(buffered + rest =~= input);
    } else {
        assert(buffered + rest =~= input);
    }
}

/// Captured samples on their way to the feature models: whole chunks go to
/// the raw buffer (which keeps the last [`MAX_RAW_BUFFER_SAMPLES`]), and
/// once they add up to whole chunks a mel spectrogram is due; what does
/// not complete a chunk waits for the next call.
pub struct StreamingSamples {
    raw: Vec<i16>,
    accumulated: usize,
    remainder: Vec<i16>,
}

impl StreamingSamples {
    #[verifier::type_invariant]
    spec fn inv(self) -> bool {
        &&& self.accumulated < FEATURE_CHUNK
        &&& self.raw@.len() <= MAX_RAW_BUFFER_SAMPLES
        &&& self.remainder@.len() < FEATURE_CHUNK
    }

    /// The raw samples kept, oldest first.
    pub closed spec fn raw(&self) -> Seq<i16> {
        self.raw@
    }

    /// Samples buffered since the last mel spectrogram.
    pub closed spec fn accumulated(&self) -> nat {
        self.accumulated as nat
    }

    /// Samples waiting for the next call.
    pub closed spec fn pending(&self) -> Seq<i16> {
        self.remainder@
    }

    pub fn new() -> (r: Self)
        ensures
            r.raw().len() == 0,
            r.accumulated() == 0,
            r.pending().len() == 0,
    {
        Self { raw: Vec::new(), accumulated: 0, remainder: Vec::new() }
    }

    /// The raw samples kept, oldest first.
    pub fn raw_samples(&self) -> (r: &[i16])
        ensures
            r@ == self.raw(),
    {
        self.raw.as_slice()
    }

    /// Takes new samples (after those waiting). Returns the number of
    /// samples processed by a mel spectrogram due now, or else the number
    /// accumulated so far; and, when a mel spectrogram is due, where its
    /// input starts in the raw samples: the new samples and the
    /// [`MEL_CONTEXT_SAMPLES`] before them, as far as they are kept.
    pub fn push(&mut self, x: &[i16]) -> (r: (usize, Option<usize>))
        requires
            old(self).pending().len() + x@.len() + FEATURE_CHUNK + MEL_CONTEXT_SAMPLES <= usize::MAX,
        ensures
            ({
                let input = old(self).pending() + x@;
                let total = old(self).accumulated() + input.len();
                let (buffered, rest) = stream_split(old(self).accumulated(), input);
                &&& final(self).raw() == keep_last(old(self).raw() + buffered, MAX_RAW_BUFFER_SAMPLES as nat)
                &&& final(self).pending() == rest
                &&& if total >= FEATURE_CHUNK {
                    let n = total - total % (FEATURE_CHUNK as nat);
                    &&& final(self).accumulated() == 0
                    &&& r.0 == n
                    &&& r.1 == Some(
                        if final(self).raw().len() > n + MEL_CONTEXT_SAMPLES {
                            (final(self).raw().len() - n - MEL_CONTEXT_SAMPLES) as usize
                        } else {
                            0usize
                        },
                    )
                } else {
                    &&& final(self).accumulated() == total
                    &&& r.0 == total
                    &&& r.1 is None
                }
            }),
    {
        proof {
            use_type_invariant(&*self);
        }
        let mut input: Vec<i16> = Vec::new();
        std::mem::swap(&mut input, &mut self.remainder);
        let ghost input0 = input@;
        let mut k: usize = 0;
        while k < x.len()
            invariant
                k <= x@.len(),
                input@ == input0 + x@.subrange(0, k as int),
            decreases x@.len() - k,
        {
            input.push(x[k]);
            assert(x@.subrange(0, k + 1) =~= x@.subrange(0, k as int).push(x@[k as int]));
            k += 1;
        }
        assert(x@.subrange(0, k as int) =~= x@);
        let n_in = input.len();
        let total = self.accumulated + n_in;
        let split: usize = if total >= FEATURE_CHUNK {
            n_in - total % FEATURE_CHUNK
        } else {
            n_in
        };
        let mut rest: Vec<i16> = Vec::new();
        let mut raw: Vec<i16> = Vec::new();
        std::mem::swap(&mut raw, &mut self.raw);
        let ghost raw0 = raw@;
        let mut j: usize = 0;
        while j < n_in
            invariant
                j <= n_in,
                n_in == input@.len(),
                split <= n_in,
                j <= split ==> raw@ == raw0 + input@.subrange(0, j as int) && rest@.len() == 0,
                j > split ==> raw@ == raw0 + input@.subrange(0, split as int) && rest@ == input@.subrange(
                    split as int,
                    j as int,
                ),
            decreases n_in - j,
        {
            if j < split {
                raw.push(input[j]);
                assert(input@.subrange(0, j + 1) =~= input@.subrange(0, j as int).push(input@[j as int]));
            } else {
                rest.push(input[j]);
                assert(input@.subrange(split as int, j + 1) =~= input@.subrange(split as int, j as int).push(
                    input@[j as int],
                ));
            }
            j += 1;
        }
        if split == n_in {
            assert(rest@ =~= input@.subrange(split as int, n_in as int));
        }
        let ghost all = raw@;
        if raw.len() > MAX_RAW_BUFFER_SAMPLES {
            let excess = raw.len() - MAX_RAW_BUFFER_SAMPLES;
            let mut kept: Vec<i16> = Vec::new();
            let mut q: usize = excess;
            while q < raw.len()
                invariant
                    excess <= q <= raw@.len(),
                    kept@ == raw@.subrange(excess as int, q as int),
                decreases raw@.len() - q,
            {
                kept.push(raw[q]);
                assert(raw@.subrange(excess as int, q + 1) =~= raw@.subrange(excess as int, q as int).push(
                    raw@[q as int],
                ));
                q += 1;
            }
            raw = kept;
        }
        assert(raw@ =~= keep_last(all, MAX_RAW_BUFFER_SAMPLES as nat));
        self.raw = raw;
        self.remainder = rest;
        if total >= FEATURE_CHUNK {
            let n = total - total % FEATURE_CHUNK;
            self.accumulated = 0;
            let start: usize = if self.raw.len() > n + MEL_CONTEXT_SAMPLES {
                self.raw.len() - n - MEL_CONTEXT_SAMPLES
            } else {
                0
            };
            (n, Some(start))
        } else {
            self.accumulated = total;
            (total, None)
        }
    }
}

/// Drops the oldest items beyond `max`.
pub fn trim_front<T>(v: &mut Vec<T>, max: usize)
    ensures
        final(v)@ == keep_last(old(v)@, max as nat),
{
    while v.len() > max
        invariant
            keep_last(v@, max as nat) == keep_last(old(v)@, max as nat),
        decreases v@.len(),
    {
        let ghost before = v@;
        v.remove(0);
        assert(keep_last(v@, max as nat) =~= keep_last(before, max as nat));
    }
}

/// The mel frames `(start, end)` each embedding of a step covers, oldest
/// first, when the mel buffer holds `mel_frames` frames and the step added
/// `new_chunks` chunks: one window of [`EMBEDDING_WINDOW_FRAMES`] frames per
/// chunk, the last ending at the newest frame and each earlier one
/// [`EMBEDDING_STEP_FRAMES`] frames before; windows that would start
/// before the first frame are left out, and none are made while fewer than
/// a window of frames is held.
pub fn embedding_windows(mel_frames: usize, new_chunks: usize) -> (w: Vec<(usize, usize)>)
    requires
        new_chunks == 0 || EMBEDDING_STEP_FRAMES * (new_chunks - 1) <= mel_frames,
    ensures
        mel_frames < EMBEDDING_WINDOW_FRAMES ==> w@.len() == 0,
        mel_frames >= EMBEDDING_WINDOW_FRAMES ==> w@ == Seq::new(
            new_chunks as nat,
            |k: int| (new_chunks - 1 - k) * EMBEDDING_STEP_FRAMES,
        ).filter(|off: int| mel_frames - off >= EMBEDDING_WINDOW_FRAMES).map_values(
            |off: int| ((mel_frames - off - EMBEDDING_WINDOW_FRAMES) as usize, (mel_frames - off) as usize),
        ),
{
    let mut w: Vec<(usize, usize)> = Vec::new();
    if mel_frames < EMBEDDING_WINDOW_FRAMES {
        return w;
    }
    let ghost offs = Seq::new(new_chunks as nat, |k: int| (new_chunks - 1 - k) * EMBEDDING_STEP_FRAMES);
    let ghost keep = |off: int| mel_frames - off >= EMBEDDING_WINDOW_FRAMES;
    let ghost f = |off: int| ((mel_frames - off - EMBEDDING_WINDOW_FRAMES) as usize, (mel_frames - off) as usize);
    let mut k: usize = 0;
    while k < new_chunks
        invariant
            k <= new_chunks,
            new_chunks == 0 || EMBEDDING_STEP_FRAMES * (new_chunks - 1) <= mel_frames,
            mel_frames >= EMBEDDING_WINDOW_FRAMES,
            offs == Seq::new(new_chunks as nat, |k: int| (new_chunks - 1 - k) * EMBEDDING_STEP_FRAMES),
            keep == (|off: int| mel_frames - off >= EMBEDDING_WINDOW_FRAMES),
            f == (|off: int| ((mel_frames - off - EMBEDDING_WINDOW_FRAMES) as usize, (mel_frames - off) as usize)),
            w@ == offs.take(k as int).filter(keep).map_values(f),
        decreases new_chunks - k,
    {
        let i = new_chunks - 1 - k;
        assert(EMBEDDING_STEP_FRAMES * i <= mel_frames) by (nonlinear_arith)
            requires
                i <= new_chunks - 1,
                EMBEDDING_STEP_FRAMES * (new_chunks - 1) <= mel_frames,
        ;
        let end = mel_frames - EMBEDDING_STEP_FRAMES * i;
        let start = if end >= EMBEDDING_WINDOW_FRAMES {
            end - EMBEDDING_WINDOW_FRAMES
        } else {
            0
        };
        let ghost off = offs[k as int];
        assert(off == i * EMBEDDING_STEP_FRAMES);
        assert(offs.take(k + 1) =~= offs.take(k as int).push(off));
        proof {
            offs.take(k as int).lemma_filter_push(off, keep);
        }
        if end - start == EMBEDDING_WINDOW_FRAMES {
            w.push((start, end));
            assert(offs.take(k + 1).filter(keep) == offs.take(k as int).filter(keep).push(off));
            assert(w@ =~= offs.take(k + 1).filter(keep).map_values(f));
        } else {
            assert(offs.take(k + 1).filter(keep) == offs.take(k as int).filter(keep));
        }
        k += 1;
    }
    assert(offs.take(new_chunks as int) =~= offs);
    w
}

/// One step of the warm-up noise generator (a 64-bit linear congruential
/// generator, wrapping).
pub open spec fn lcg_next(state: u64) -> u64 {
    vstd::wrapping::u64_specs::wrapping_add(
        vstd::wrapping::u64_specs::wrapping_mul(state, 6364136223846793005u64),
        1442695040888963407u64,
    )
}

/// The generator's state after `k` steps from its seed, 42.
pub open spec fn lcg_state(k: nat) -> u64
    decreases k,
{
    if k == 0 {
        42
    } else {
        lcg_next(lcg_state((k - 1) as nat))
    }
}

/// The sample drawn from a state: its top 31 bits, reduced to -1000..=1000.
pub open spec fn noise_sample(state: u64) -> i16 {
    ((state >> 33u64) as int % 2001 - 1000) as i16
}

/// The deterministic noise that primes the feature buffers: sample `k` is
/// drawn from the generator's state after `k + 1` steps.
pub fn generate_warmup_noise(n_samples: usize) -> (v: Vec<i16>)
    ensures
        v@.len() == n_samples,
        forall|k: int| 0 <= k < n_samples ==> #[trigger] v@[k] == noise_sample(lcg_state((k + 1) as nat)),
{
    let mut state: u64 = 42;
    let mut samples: Vec<i16> = Vec::new();
    let mut k: usize = 0;
    while k < n_samples
        invariant
            k <= n_samples,
            samples@.len() == k,
            state == lcg_state(k as nat),
            forall|j: int| 0 <= j < k ==> #[trigger] samples@[j] == noise_sample(lcg_state((j + 1) as nat)),
        decreases n_samples - k,
    {
        state = state.wrapping_mul(6364136223846793005).wrapping_add(1442695040888963407);
        let top: u64 = state >> 33u64;
        assert(top <= 0x7fff_ffff) by (bit_vector)
            requires
                top == state >> 33u64,
        ;
        let value: i32 = (top as i32) % 2001 - 1000;
        samples.push(value as i16);
        k += 1;
    }
    samples
}

/// The feature frames `[start, end)` that a request for `n_feature_frames`
/// frames from `start_ndx` selects out of `buffer_len`, indexing as Python
/// slices do: `-1` means the last frames; other negative indices count
/// from the end (the range then ends `n_feature_frames` later, or at the
/// end of the buffer when that is index 0); non-negative ones count from
/// the start. An empty buffer, or a range that ends before it starts,
/// selects nothing (`(0, 0)`).
pub fn feature_range(buffer_len: usize, n_feature_frames: usize, start_ndx: i32) -> (r: (usize, usize))
    requires
        start_ndx < -1 ==> start_ndx > i32::MIN && n_feature_frames <= i32::MAX && start_ndx + n_feature_frames
            <= i32::MAX,
    ensures
        r.0 <= r.1 <= buffer_len,
        buffer_len == 0 ==> r == (0usize, 0usize),
        buffer_len > 0 && start_ndx == -1 ==> r == (
            if n_feature_frames <= buffer_len {
                (buffer_len - n_feature_frames) as usize
            } else {
                0usize
            },
            buffer_len,
        ),
        buffer_len > 0 && start_ndx < -1 ==> ({
            let start: int = if -start_ndx <= buffer_len {
                buffer_len + start_ndx
            } else {
                0
            };
            let off: int = start_ndx + n_feature_frames;
            let end: int = if off == 0 {
                buffer_len as int
            } else if off < 0 {
                if -off <= buffer_len {
                    buffer_len + off
                } else {
                    0
                }
            } else if start + n_feature_frames <= buffer_len {
                start + n_feature_frames
            } else {
                buffer_len as int
            };
            r == if start >= end {
                (0usize, 0usize)
            } else {
                (start as usize, end as usize)
            }
        }),
        buffer_len > 0 && start_ndx >= 0 ==> ({
            let start: int = if start_ndx <= buffer_len {
                start_ndx as int
            } else {
                buffer_len as int
            };
            let end: int = if start + n_feature_frames <= buffer_len {
                start + n_feature_frames
            } else {
                buffer_len as int
            };
            r == (start as usize, end as usize)
        }),
{
    if buffer_len == 0 {
        return (0, 0);
    }
    if start_ndx == -1 {
        let start = if n_feature_frames <= buffer_len {
            buffer_len - n_feature_frames
        } else {
            0
        };
        return (start, buffer_len);
    }
    if start_ndx < -1 {
        let abs_start: u64 = (-start_ndx) as u64;
        let start: usize = if abs_start <= buffer_len as u64 {
            buffer_len - abs_start as usize
        } else {
            0
        };
        let end_offset: i64 = start_ndx as i64 + n_feature_frames as i64;
        let end: usize = if end_offset == 0 {
            buffer_len
        } else if end_offset < 0 {
            let back: u64 = (-end_offset) as u64;
            if back <= buffer_len as u64 {
                buffer_len - back as usize
            } else {
                0
            }
        } else if n_feature_frames <= buffer_len - start {
            start + n_feature_frames
        } else {
            buffer_len
        };
        if start >= end {
            return (0, 0);
        }
        return (start, end);
    }
    let start: usize = if (start_ndx as u64) <= buffer_len as u64 {
        start_ndx as usize
    } else {
        buffer_len
    };
    let end: usize = if n_feature_frames <= buffer_len - start {
        start + n_feature_frames
    } else {
        buffer_len
    };
    (start, end)
}

} // verus!
