//! Configuration of the streaming speech pipeline.
use vstd::prelude::*;
use std::time::Duration;

verus! {

/// `Duration` is `Copy`; its `clone` hands back the same duration.
pub assume_specification[ <Duration as Clone>::clone ](d: &Duration) -> (r: Duration)
    ensures
        r == *d,
;

/// Configuration for the speech pipeline.
#[derive(Debug, Clone)]
pub struct SpeechPipelineConfig {
    /// How long to wait after the last speech before ending collection.
    pub end_of_speech_timeout: Duration,
    /// Longest stretch of speech collected.
    pub max_speech_duration: Duration,
}

/// Whether collection has reached the end of speech: the time since the last
/// speech (in milliseconds; `None` when there was none) exceeds the silence
/// allowed.
pub fn end_of_speech_reached(since_last_speech_ms: Option<u128>, silence_ms: u128) -> (b: bool)
    ensures
        b == match since_last_speech_ms {
            Some(t) => t > silence_ms,
            None => false,
        },
{
    match since_last_speech_ms {
        Some(t) => t > silence_ms,
        None => false,
    }
}

/// Mel spectrogram outputs kept for one embedding (5 frames each).
pub const MEL_OUTPUTS_NEEDED: usize = 16;

/// Mel frames one embedding takes.
pub const EMBEDDING_INPUT_FRAMES: usize = 76;

/// The warm-up and the detection latch of the wake word pipeline: how many
/// mel outputs and embeddings are held (each window keeps only the most
/// recent), and whether detections are ignored after one fired. The models
/// and their floating-point confidences stay outside the library; the
/// latch is told how a confidence compares with the threshold.
pub struct DetectionGate {
    mel_outputs: usize,
    embeddings: usize,
    window_size: usize,
    ignoring: bool,
}

impl DetectionGate {
    #[verifier::type_invariant]
    spec fn inv(self) -> bool {
        &&& self.mel_outputs <= MEL_OUTPUTS_NEEDED
        &&& self.embeddings <= self.window_size
    }

    /// Mel outputs held.
    pub closed spec fn mel_outputs(&self) -> nat {
        self.mel_outputs as nat
    }

    /// Embeddings held.
    pub closed spec fn embeddings(&self) -> nat {
        self.embeddings as nat
    }

    /// Embeddings the wake word model takes.
    pub closed spec fn window_size(&self) -> nat {
        self.window_size as nat
    }

    /// Whether detections are ignored until the confidence drops.
    pub closed spec fn ignoring(&self) -> bool {
        self.ignoring
    }

    pub fn new(window_size: usize) -> (r: Self)
        ensures
            r.mel_outputs() == 0,
            r.embeddings() == 0,
            r.window_size() == window_size,
            !r.ignoring(),
    {
        Self { mel_outputs: 0, embeddings: 0, window_size, ignoring: false }
    }

    /// A mel spectrogram output was added; returns whether an embedding is
    /// due: once [`MEL_OUTPUTS_NEEDED`] are held, whose frames cover the
    /// [`EMBEDDING_INPUT_FRAMES`] the embedding takes.
    pub fn on_mel_output(&mut self) -> (due: bool)
        ensures
            final(self).mel_outputs() == if old(self).mel_outputs() < MEL_OUTPUTS_NEEDED {
                old(self).mel_outputs() + 1
            } else {
                MEL_OUTPUTS_NEEDED as nat
            },
            final(self).embeddings() == old(self).embeddings(),
            final(self).window_size() == old(self).window_size(),
            final(self).ignoring() == old(self).ignoring(),
            due == (final(self).mel_outputs() == MEL_OUTPUTS_NEEDED && final(self).mel_outputs() * 5
                >= EMBEDDING_INPUT_FRAMES),
    {
        proof {
            use_type_invariant(&*self);
        }
        if self.mel_outputs < MEL_OUTPUTS_NEEDED {
            self.mel_outputs = self.mel_outputs + 1;
        }
        self.mel_outputs == MEL_OUTPUTS_NEEDED && self.mel_outputs * 5 >= EMBEDDING_INPUT_FRAMES
    }

    /// An embedding was added; returns whether the wake word model is due:
    /// once the window is full.
    pub fn on_embedding(&mut self) -> (due: bool)
        ensures
            final(self).embeddings() == if old(self).embeddings() < old(self).window_size() {
                old(self).embeddings() + 1
            } else {
                old(self).window_size()
            },
            final(self).mel_outputs() == old(self).mel_outputs(),
            final(self).window_size() == old(self).window_size(),
            final(self).ignoring() == old(self).ignoring(),
            due == (final(self).embeddings() == final(self).window_size()),
    {
        proof {
            use_type_invariant(&*self);
        }
        if self.embeddings < self.window_size {
            self.embeddings = self.embeddings + 1;
        }
        self.embeddings == self.window_size
    }

    /// The wake word model gave a confidence; `at_threshold` says whether
    /// it reaches the threshold and `below_half` whether it is under half
    /// the threshold. While detections are ignored none fires, and ignoring
    /// stops once the confidence drops below half the threshold; otherwise
    /// a confidence at the threshold fires and starts ignoring.
    pub fn on_confidence(&mut self, at_threshold: bool, below_half: bool) -> (detected: bool)
        ensures
            detected == (!old(self).ignoring() && at_threshold),
            final(self).ignoring() == if old(self).ignoring() {
                !below_half
            } else {
                at_threshold
            },
            final(self).mel_outputs() == old(self).mel_outputs(),
            final(self).embeddings() == old(self).embeddings(),
            final(self).window_size() == old(self).window_size(),
    {
        proof {
            use_type_invariant(&*self);
        }
        if self.ignoring {
            if below_half {
                self.ignoring = false;
            }
            false
        } else {
            if at_threshold {
                self.ignoring = true;
            }
            at_threshold
        }
    }

    /// Allows detections again; the windows are kept.
    pub fn reset(&mut self)
        ensures
            !final(self).ignoring(),
            final(self).mel_outputs() == old(self).mel_outputs(),
            final(self).embeddings() == old(self).embeddings(),
            final(self).window_size() == old(self).window_size(),
    {
        proof {
            use_type_invariant(&*self);
        }
        self.ignoring = false;
    }
}

} // verus!
