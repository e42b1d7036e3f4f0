//! Voice activity detection: supported rates and chunk sizes, and the
//! interface of a detector.
use vstd::prelude::*;
use crate::audio_capture::keep_last;
use crate::error::EdgeError;

verus! {

/// Sample rates supported by Silero VAD.
#[derive(Debug, Clone, Copy, PartialEq, Eq, Structural)]
pub enum VADSampleRate {
    Rate8kHz,
    Rate16kHz,
}

impl VADSampleRate {
    pub open spec fn hz(self) -> u32 {
        match self {
            VADSampleRate::Rate8kHz => 8000,
            VADSampleRate::Rate16kHz => 16000,
        }
    }

    /// The rate's name (`8kHz`, `16kHz`).
    pub fn name(&self) -> (s: &'static str)
        ensures
            *self == VADSampleRate::Rate8kHz ==> s@ == "8kHz"@,
            *self == VADSampleRate::Rate16kHz ==> s@ == "16kHz"@,
    {
        match self {
            VADSampleRate::Rate8kHz => "8kHz",
            VADSampleRate::Rate16kHz => "16kHz",
        }
    }
}

impl From<VADSampleRate> for u32 {
    fn from(rate: VADSampleRate) -> (r: u32) {
        match rate {
            VADSampleRate::Rate8kHz => 8000,
            VADSampleRate::Rate16kHz => 16000,
        }
    }
}

impl vstd::std_specs::convert::FromSpecImpl<VADSampleRate> for u32 {
    open spec fn obeys_from_spec() -> bool {
        true
    }

    open spec fn from_spec(v: VADSampleRate) -> u32 {
        v.hz()
    }
}

/// Chunk sizes supported by Silero VAD at 16 kHz.
#[derive(Debug, Clone, Copy, PartialEq, Eq, Structural)]
pub enum ChunkSize {
    /// 512 samples (32 ms at 16 kHz).
    Small,
    /// 768 samples (48 ms at 16 kHz).
    Medium,
    /// 1024 samples (64 ms at 16 kHz).
    Large,
}

impl ChunkSize {
    /// The chunk size in samples.
    pub fn samples(&self) -> (n: usize)
        ensures
            n == match *self {
                ChunkSize::Small => 512usize,
                ChunkSize::Medium => 768usize,
                ChunkSize::Large => 1024usize,
            },
    {
        match self {
            ChunkSize::Small => 512,
            ChunkSize::Medium => 768,
            ChunkSize::Large => 1024,
        }
    }
}

/// A voice activity detector.
pub trait VAD: Send {
    /// Whether the detector thinks the audio chunk should be processed.
    fn should_process_audio(&mut self, audio: &[i16]) -> Result<bool, EdgeError>;

    /// Whether speech is considered active.
    fn is_speech_active(&self) -> bool;

    /// Resets the detector's state.
    fn reset(&mut self);
}

/// How many of the last `n` items of `s` (all of them when there are
/// fewer) equal `v`.
pub open spec fn count_in_tail(s: Seq<bool>, n: nat, v: bool) -> nat
    decreases n,
{
    if n == 0 || s.len() == 0 {
        0
    } else {
        (if s.last() == v {
            1nat
        } else {
            0nat
        }) + count_in_tail(s.drop_last(), (n - 1) as nat, v)
    }
}

/// At most `n` of the last `n` decisions, and at most all of them, equal
/// `v`.
pub proof fn lemma_count_in_tail_bounds(s: Seq<bool>, n: nat, v: bool)
    ensures
        count_in_tail(s, n, v) <= n,
        count_in_tail(s, n, v) <= s.len(),
    decreases n,
{
    if n > 0 && s.len() > 0 {
        lemma_count_in_tail_bounds(s.drop_last(), (n - 1) as nat, v);
    }
}

/// Whether speech is active after a new per-chunk decision, given the
/// decisions kept (the new one last): inactive speech starts once the last
/// `trigger` decisions all found voice; active speech stops once the last
/// `stop` decisions all found none.
pub open spec fn speech_active_after(active: bool, recent: Seq<bool>, trigger: nat, stop: nat) -> bool {
    if !active {
        count_in_tail(recent, trigger, true) >= trigger
    } else {
        !(count_in_tail(recent, stop, false) >= stop)
    }
}

/// The larger of two counts.
pub open spec fn larger(a: nat, b: nat) -> nat {
    if a >= b {
        a
    } else {
        b
    }
}

/// Hysteresis: inactive speech does not start while fewer decisions than
/// the (positive) trigger were taken, nor on a chunk without voice; active
/// speech does not stop on a chunk with voice (when stopping takes at
/// least one silent chunk).
pub proof fn lemma_speech_hysteresis(recent: Seq<bool>, trigger: nat, stop: nat)
    ensures
        trigger > 0 && recent.len() < trigger ==> !speech_active_after(false, recent, trigger, stop),
        trigger > 0 && recent.len() > 0 && !recent.last() ==> !speech_active_after(false, recent, trigger, stop),
        stop > 0 && recent.len() > 0 && recent.last() ==> speech_active_after(true, recent, trigger, stop),
{
    lemma_count_in_tail_bounds(recent, trigger, true);
    if recent.len() > 0 {
        lemma_count_in_tail_bounds(recent.drop_last(), (trigger - 1) as nat, true);
        lemma_count_in_tail_bounds(recent.drop_last(), (stop - 1) as nat, false);
    }
}

/// Speech activity with hysteresis over the detector's per-chunk
/// decisions: it takes `speech_trigger_chunks` voiced chunks in a row to
/// start and `silence_stop_chunks` silent ones in a row to stop.
pub struct SpeechHysteresis {
    recent: Vec<bool>,
    active: bool,
    speech_trigger_chunks: usize,
    silence_stop_chunks: usize,
}

impl SpeechHysteresis {
    #[verifier::type_invariant]
    spec fn inv(self) -> bool {
        self.recent@.len() <= larger(self.speech_trigger_chunks as nat, self.silence_stop_chunks as nat)
    }

    /// The decisions kept, oldest first.
    pub closed spec fn decisions(&self) -> Seq<bool> {
        self.recent@
    }

    pub closed spec fn active(&self) -> bool {
        self.active
    }

    pub closed spec fn trigger(&self) -> nat {
        self.speech_trigger_chunks as nat
    }

    pub closed spec fn stop(&self) -> nat {
        self.silence_stop_chunks as nat
    }

    pub fn new(speech_trigger_chunks: usize, silence_stop_chunks: usize) -> (r: Self)
        ensures
            r.decisions().len() == 0,
            !r.active(),
            r.trigger() == speech_trigger_chunks,
            r.stop() == silence_stop_chunks,
    {
        Self { recent: Vec::new(), active: false, speech_trigger_chunks, silence_stop_chunks }
    }

    /// Whether speech is considered active.
    pub fn is_speech_active(&self) -> (b: bool)
        ensures
            b == self.active(),
    {
        self.active
    }

    /// Counts the decisions equal to `v` among the last `n` kept.
    fn count_tail(&self, n: usize, v: bool) -> (c: usize)
        ensures
            c == count_in_tail(self.recent@, n as nat, v),
    {
        let mut c: usize = 0;
        let mut k: usize = 0;
        let len = self.recent.len();
        assert(self.recent@.subrange(0, len as int) =~= self.recent@);
        while k < n && k < len
            invariant
                k <= n,
                k <= len,
                len == self.recent@.len(),
                c <= k,
                c + count_in_tail(self.recent@.subrange(0, len - k), (n - k) as nat, v) == count_in_tail(
                    self.recent@,
                    n as nat,
                    v,
                ),
            decreases n - k,
        {
            let ghost s = self.recent@.subrange(0, len - k);
            assert(s.drop_last() =~= self.recent@.subrange(0, len - k - 1));
            if self.recent[len - 1 - k] == v {
                c += 1;
            }
            k += 1;
        }
        c
    }

    /// Takes the decision for one more chunk.
    pub fn update(&mut self, is_voice: bool)
        ensures
            final(self).decisions() == keep_last(
                old(self).decisions().push(is_voice),
                larger(old(self).trigger(), old(self).stop()),
            ),
            final(self).active() == speech_active_after(
                old(self).active(),
                final(self).decisions(),
                old(self).trigger(),
                old(self).stop(),
            ),
            final(self).trigger() == old(self).trigger(),
            final(self).stop() == old(self).stop(),
    {
        proof {
            use_type_invariant(&*self);
        }
        let keep = if self.speech_trigger_chunks >= self.silence_stop_chunks {
            self.speech_trigger_chunks
        } else {
            self.silence_stop_chunks
        };
        let ghost all = self.recent@.push(is_voice);
        let mut recent: Vec<bool> = Vec::new();
        std::mem::swap(&mut recent, &mut self.recent);
        recent.push(is_voice);
        if recent.len() > keep {
            recent.remove(0);
            assert(recent@ =~= keep_last(all, keep as nat));
        }
        self.recent = recent;
        if !self.active {
            let n = self.count_tail(self.speech_trigger_chunks, true);
            if n >= self.speech_trigger_chunks {
                self.active = true;
            }
        } else {
            let n = self.count_tail(self.silence_stop_chunks, false);
            if n >= self.silence_stop_chunks {
                self.active = false;
            }
        }
    }

    /// Takes the decision for a chunk (whether the detector heard voice in
    /// it) and says whether to process the chunk: while speech is active,
    /// or whenever the chunk itself has voice.
    pub fn should_process(&mut self, has_speech: bool) -> (b: bool)
        ensures
            final(self).decisions() == keep_last(
                old(self).decisions().push(has_speech),
                larger(old(self).trigger(), old(self).stop()),
            ),
            final(self).active() == speech_active_after(
                old(self).active(),
                final(self).decisions(),
                old(self).trigger(),
                old(self).stop(),
            ),
            b == (final(self).active() || has_speech),
    {
        self.update(has_speech);
        self.active || has_speech
    }

    /// Forgets the decisions; speech is inactive.
    pub fn reset(&mut self)
        ensures
            final(self).decisions().len() == 0,
            !final(self).active(),
            final(self).trigger() == old(self).trigger(),
            final(self).stop() == old(self).stop(),
    {
        self.recent = Vec::new();
        self.active = false;
    }
}

} // verus!
