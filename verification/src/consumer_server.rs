//! Consumer server types and the wake word debounce.
//!
//! Capturing, detecting and serving the consumer is I/O on threads and
//! stays outside the library.
use vstd::prelude::*;
use crate::protocol::{ConsumerMessage, ConsumerMessageView, ProtocolError};
use crate::text::string_of;

verus! {

/// Wake words within this time of the previous one are ignored.
pub const WAKEWORD_DEBOUNCE_MS: u64 = 3000;

#[derive(Debug)]
pub enum ConsumerServerError {
    Io(std::io::Error),
    Protocol(ProtocolError),
    Audio(String),
    ConsumerAlreadyConnected,
}

impl From<ProtocolError> for ConsumerServerError {
    fn from(err: ProtocolError) -> (r: Self) {
        ConsumerServerError::Protocol(err)
    }
}

impl vstd::std_specs::convert::FromSpecImpl<ProtocolError> for ConsumerServerError {
    open spec fn obeys_from_spec() -> bool {
        true
    }

    open spec fn from_spec(v: ProtocolError) -> ConsumerServerError {
        ConsumerServerError::Protocol(v)
    }
}

/// Whether a wake word is ignored because the previous one was too recent:
/// less than `debounce_ms` since it (in milliseconds; `None` when there was
/// no previous one).
pub fn wakeword_debounced(since_last_ms: Option<u128>, debounce_ms: u64) -> (b: bool)
    ensures
        b == match since_last_ms {
            Some(t) => t < debounce_ms,
            None => false,
        },
{
    match since_last_ms {
        Some(t) => t < debounce_ms as u128,
        None => false,
    }
}

/// The prediction that fires a wake word: the first at or above the
/// detection threshold (`at_or_above[i]` for prediction `i`), unless the
/// previous wake word is too recent (see [`wakeword_debounced`]).
pub fn firing_prediction(at_or_above: &[bool], since_last_ms: Option<u128>, debounce_ms: u64) -> (r: Option<usize>)
    ensures
        match r {
            Some(i) => {
                &&& !wakeword_debounced_spec(since_last_ms, debounce_ms)
                &&& i < at_or_above@.len()
                &&& at_or_above@[i as int]
                &&& forall|j: int| 0 <= j < i ==> !at_or_above@[j]
            },
            None => wakeword_debounced_spec(since_last_ms, debounce_ms) || forall|j: int|
                0 <= j < at_or_above@.len() ==> !at_or_above@[j],
        },
{
    if wakeword_debounced(since_last_ms, debounce_ms) {
        return None;
    }
    let mut i: usize = 0;
    while i < at_or_above.len()
        invariant
            i <= at_or_above@.len(),
            forall|j: int| 0 <= j < i ==> !at_or_above@[j],
            !wakeword_debounced_spec(since_last_ms, debounce_ms),
        decreases at_or_above@.len() - i,
    {
        if at_or_above[i] {
            return Some(i);
        }
        i += 1;
    }
    None
}

/// Whether a wake word is debounced (see [`wakeword_debounced`]).
pub open spec fn wakeword_debounced_spec(since_last_ms: Option<u128>, debounce_ms: u64) -> bool {
    match since_last_ms {
        Some(t) => t < debounce_ms,
        None => false,
    }
}

/// Whether to play the confirmation beep after a wake word: only when no
/// media was paused, since a pause is feedback enough.
pub fn confirmation_beep(spotify_was_paused: bool, mpv_was_paused: bool) -> (b: bool)
    ensures
        b == (!spotify_was_paused && !mpv_was_paused),
{
    !spotify_was_paused && !mpv_was_paused
}

/// What the consumer is told when another consumer is already connected.
pub fn rejection_message() -> (m: ConsumerMessage)
    ensures
        m@ == (ConsumerMessageView::Error { message: "Consumer already connected"@ }),
{
    ConsumerMessage::Error { message: string_of("Consumer already connected") }
}

/// The messages that carry one detection result to the consumer: the audio
/// chunk, then the wake word (model, timestamp, whether Spotify was paused)
/// if one fired with it.
pub fn detection_messages(
    audio_data: Vec<u8>,
    speech_detected: bool,
    timestamp: u64,
    wakeword: Option<(String, u64, bool)>,
) -> (r: Vec<ConsumerMessage>)
    ensures
        r@.len() == if wakeword is Some {
            2int
        } else {
            1int
        },
        r@[0]@ == (ConsumerMessageView::Audio { data: audio_data@, speech_detected, timestamp }),
        wakeword matches Some(w) ==> r@[1]@ == (ConsumerMessageView::WakewordDetected {
            model: w.0@,
            timestamp: w.1,
            spotify_was_paused: w.2,
        }),
{
    let mut r: Vec<ConsumerMessage> = Vec::new();
    r.push(ConsumerMessage::Audio { data: audio_data, speech_detected, timestamp });
    match wakeword {
        Some((model, ts, spotify_was_paused)) => {
            r.push(ConsumerMessage::WakewordDetected { model, timestamp: ts, spotify_was_paused });
        },
        None => {},
    }
    r
}

/// Consecutive non-speech chunks that end a speech segment, so that brief
/// gaps inside one utterance do not split it.
pub const SEGMENT_SILENCE_CHUNKS: u32 = 25;

/// What one chunk did to the current speech segment.
#[derive(Debug, Clone, Copy, PartialEq, Eq, Structural)]
pub enum SegmentOutcome {
    /// No segment ended with this chunk.
    Continues,
    /// A segment ended without a wake word firing in it: a near miss.
    EndedWithoutWakeword,
    /// A segment ended in which a wake word fired.
    EndedWithWakeword,
}

/// Follows speech segments chunk by chunk, to report segments that ended
/// without a wake word (near misses). The highest confidence seen in a
/// segment is kept by the caller, who resets it when a segment ends.
pub struct SpeechSegments {
    in_segment: bool,
    fired: bool,
    silence_run: u32,
}

impl SpeechSegments {
    #[verifier::type_invariant]
    spec fn inv(self) -> bool {
        &&& self.silence_run < SEGMENT_SILENCE_CHUNKS
        &&& !self.in_segment ==> self.silence_run == 0 && !self.fired
    }

    /// Whether a segment is open.
    pub closed spec fn open(&self) -> bool {
        self.in_segment
    }

    /// Whether a wake word fired in the open segment.
    pub closed spec fn fired(&self) -> bool {
        self.fired
    }

    /// Non-speech chunks since the last speech of the open segment.
    pub closed spec fn silence(&self) -> nat {
        self.silence_run as nat
    }

    pub fn new() -> (r: Self)
        ensures
            !r.open(),
            !r.fired(),
            r.silence() == 0,
    {
        Self { in_segment: false, fired: false, silence_run: 0 }
    }

    /// One chunk: whether it holds speech and whether a wake word fired
    /// with it. Speech opens or continues a segment; outside speech, a
    /// segment ends once [`SEGMENT_SILENCE_CHUNKS`] chunks in a row held
    /// none.
    pub fn observe(&mut self, speech: bool, wakeword_fired: bool) -> (r: SegmentOutcome)
        ensures
            speech ==> {
                &&& r == SegmentOutcome::Continues
                &&& final(self).open()
                &&& final(self).silence() == 0
                &&& final(self).fired() == (old(self).fired() || wakeword_fired)
            },
            !speech && !old(self).open() ==> {
                &&& r == SegmentOutcome::Continues
                &&& !final(self).open()
            },
            !speech && old(self).open() && old(self).silence() + 1 < SEGMENT_SILENCE_CHUNKS ==> {
                &&& r == SegmentOutcome::Continues
                &&& final(self).open()
                &&& final(self).silence() == old(self).silence() + 1
                &&& final(self).fired() == old(self).fired()
            },
            !speech && old(self).open() && old(self).silence() + 1 >= SEGMENT_SILENCE_CHUNKS ==> {
                &&& r == if old(self).fired() {
                    SegmentOutcome::EndedWithWakeword
                } else {
                    SegmentOutcome::EndedWithoutWakeword
                }
                &&& !final(self).open()
            },
            !final(self).open() ==> final(self).silence() == 0 && !final(self).fired(),
    {
        proof {
            use_type_invariant(&*self);
        }
        if speech {
            self.in_segment = true;
            self.silence_run = 0;
            if wakeword_fired {
                self.fired = true;
            }
            SegmentOutcome::Continues
        } else if self.in_segment {
            if self.silence_run + 1 >= SEGMENT_SILENCE_CHUNKS {
                let outcome = if self.fired {
                    SegmentOutcome::EndedWithWakeword
                } else {
                    SegmentOutcome::EndedWithoutWakeword
                };
                *self = Self { in_segment: false, fired: false, silence_run: 0 };
                outcome
            } else {
                self.silence_run = self.silence_run + 1;
                SegmentOutcome::Continues
            }
        } else {
            SegmentOutcome::Continues
        }
    }
}

} // verus!
