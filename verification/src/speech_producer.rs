//! The speech producer: speech events, and how each captured chunk is
//! labelled from the voice detector's verdict.
//!
//! The capture, the detector (a neural network with floating-point
//! thresholds) and the broadcast channel stay outside the library.
use vstd::prelude::*;
use crate::speech_producer::events::SpeechEvent;

pub mod events;

verus! {

/// Chunks still sent as speech after the voice stops, before speech is
/// declared over.
pub const TRAILING_FRAME_COUNT: usize = 5;

/// Labels chunks with speech events: speech starts with a voiced chunk,
/// continues through voiced chunks and up to [`TRAILING_FRAME_COUNT`]
/// unvoiced ones, and stops on the next unvoiced chunk.
pub struct SpeechTracker {
    speaking: bool,
    trailing: usize,
}

impl SpeechTracker {
    #[verifier::type_invariant]
    spec fn inv(self) -> bool {
        self.trailing <= TRAILING_FRAME_COUNT
    }

    /// Whether speech is under way.
    pub closed spec fn speaking(&self) -> bool {
        self.speaking
    }

    /// Unvoiced chunks sent as speech since the voice stopped.
    pub closed spec fn trailing(&self) -> nat {
        self.trailing as nat
    }

    pub fn new() -> (r: Self)
        ensures
            !r.speaking(),
            r.trailing() == 0,
    {
        Self { speaking: false, trailing: 0 }
    }

    /// The event of a chunk, from whether the detector heard voice in it;
    /// `None` outside speech (such chunks are still sent, as `Speaking`).
    pub fn on_chunk(&mut self, voiced: bool) -> (e: Option<SpeechEvent>)
        ensures
            voiced ==> {
                &&& final(self).speaking()
                &&& final(self).trailing() == 0
                &&& e == Some(
                    if old(self).speaking() {
                        SpeechEvent::Speaking
                    } else {
                        SpeechEvent::StartedSpeaking
                    },
                )
            },
            !voiced && old(self).speaking() && old(self).trailing() >= TRAILING_FRAME_COUNT ==> {
                &&& !final(self).speaking()
                &&& final(self).trailing() == old(self).trailing()
                &&& e == Some(SpeechEvent::StoppedSpeaking)
            },
            !voiced && old(self).speaking() && old(self).trailing() < TRAILING_FRAME_COUNT ==> {
                &&& final(self).speaking()
                &&& final(self).trailing() == old(self).trailing() + 1
                &&& e == Some(SpeechEvent::Speaking)
            },
            !voiced && !old(self).speaking() ==> {
                &&& !final(self).speaking()
                &&& final(self).trailing() == old(self).trailing()
                &&& e is None
            },
    {
        proof {
            use_type_invariant(&*self);
        }
        if voiced {
            self.trailing = 0;
            if !self.speaking {
                self.speaking = true;
                Some(SpeechEvent::StartedSpeaking)
            } else {
                Some(SpeechEvent::Speaking)
            }
        } else if self.speaking {
            if self.trailing >= TRAILING_FRAME_COUNT {
                self.speaking = false;
                Some(SpeechEvent::StoppedSpeaking)
            } else {
                self.trailing = self.trailing + 1;
                Some(SpeechEvent::Speaking)
            }
        } else {
            None
        }
    }
}

} // verus!
