//! The windowing behind voice activity detection: captured chunks of 1280
//! samples are regrouped into the 512-sample windows the detector takes,
//! with no overlap and nothing lost across chunk boundaries.
//!
//! The detector itself (a neural network on floating-point samples, with a
//! floating-point threshold) stays outside the library.
use vstd::prelude::*;
use crate::audio_capture::flatten;

verus! {

/// Samples per detector window (32 ms at 16 kHz).
pub const VAD_WINDOW: usize = 512;

/// Samples waiting to complete the next detector window.
pub struct SampleWindows {
    pending: Vec<i16>,
}

impl View for SampleWindows {
    type V = Seq<i16>;

    closed spec fn view(&self) -> Seq<i16> {
        self.pending@
    }
}

impl SampleWindows {
    #[verifier::type_invariant]
    spec fn inv(self) -> bool {
        self.pending@.len() < VAD_WINDOW
    }

    pub fn new() -> (r: Self)
        ensures
            r@.len() == 0,
    {
        Self { pending: Vec::new() }
    }

    /// The number of samples waiting.
    pub fn buffer_samples(&self) -> (n: usize)
        ensures
            n == self@.len(),
            n < VAD_WINDOW,
    {
        proof {
            use_type_invariant(self);
        }
        self.pending.len()
    }

    /// Forgets the samples waiting.
    pub fn reset(&mut self)
        ensures
            final(self)@.len() == 0,
    {
        self.pending = Vec::new();
    }

    /// Adds new samples and hands back every window they complete, oldest
    /// first: the waiting samples and the new ones are exactly the windows
    /// followed by what waits afterwards, which is less than a window.
    pub fn push(&mut self, samples: &[i16]) -> (windows: Vec<Vec<i16>>)
        ensures
            old(self)@ + samples@ == flatten(windows@.map_values(|w: Vec<i16>| w@)) + final(self)@,
            forall|k: int| 0 <= k < windows@.len() ==> (#[trigger] windows@[k])@.len() == VAD_WINDOW,
            final(self)@.len() < VAD_WINDOW,
    {
        proof {
            use_type_invariant(&*self);
        }
        let mut windows: Vec<Vec<i16>> = Vec::new();
        let mut pending: Vec<i16> = Vec::new();
        std::mem::swap(&mut pending, &mut self.pending);
        let ghost start = pending@;
        let mut i: usize = 0;
        while i < samples.len()
            invariant
                i <= samples@.len(),
                pending@.len() < VAD_WINDOW,
                start + samples@.subrange(0, i as int) == flatten(windows@.map_values(|w: Vec<i16>| w@))
                    + pending@,
                forall|k: int| 0 <= k < windows@.len() ==> (#[trigger] windows@[k])@.len() == VAD_WINDOW,
            decreases samples@.len() - i,
        {
            let ghost before = windows@.map_values(|w: Vec<i16>| w@);
            let ghost p0 = pending@;
            let x = samples[i];
            pending.push(x);
            assert(samples@.subrange(0, i + 1) =~= samples@.subrange(0, i as int).push(x));
            assert(start + samples@.subrange(0, i + 1) =~= (start + samples@.subrange(0, i as int)).push(x));
            assert((flatten(before) + p0).push(x) =~= flatten(before) + p0.push(x));
            if pending.len() == VAD_WINDOW {
                let mut full: Vec<i16> = Vec::new();
                std::mem::swap(&mut full, &mut pending);
                let ghost w = full@;
                windows.push(full);
                let ghost after = windows@.map_values(|w: Vec<i16>| w@);
                assert(after.drop_last() =~= before);
                assert(after.last() == w);
                assert(flatten(after) == flatten(before) + w);
                assert(start + samples@.subrange(0, i + 1) =~= flatten(after) + pending@);
            } else {
                assert(start + samples@.subrange(0, i + 1) =~= flatten(before) + pending@);
            }
            i += 1;
        }
        assert(samples@.subrange(0, i as int) =~= samples@);
        self.pending = pending;
        windows
    }
}

} // verus!
