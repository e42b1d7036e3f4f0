//! Speech events of the speech producer.
use vstd::prelude::*;

verus! {

/// Speech events that can occur during audio processing.
#[derive(Debug, Clone, Copy, PartialEq, Eq, Structural)]
pub enum SpeechEvent {
    /// First speech chunk after silence.
    StartedSpeaking,
    /// Ongoing speech chunk.
    Speaking,
    /// First silence chunk after speech.
    StoppedSpeaking,
}

impl SpeechEvent {
    /// Whether a chunk with this event goes to downstream processing.
    pub fn should_process(&self) -> (b: bool)
        ensures
            b == (*self == SpeechEvent::StartedSpeaking || *self == SpeechEvent::Speaking),
    {
        match self {
            SpeechEvent::StartedSpeaking | SpeechEvent::Speaking => true,
            SpeechEvent::StoppedSpeaking => false,
        }
    }

    /// Whether this event starts a speech segment.
    pub fn is_speech_start(&self) -> (b: bool)
        ensures
            b == (*self == SpeechEvent::StartedSpeaking),
    {
        match self {
            SpeechEvent::StartedSpeaking => true,
            _ => false,
        }
    }

    /// Whether this event ends a speech segment.
    pub fn is_speech_end(&self) -> (b: bool)
        ensures
            b == (*self == SpeechEvent::StoppedSpeaking),
    {
        match self {
            SpeechEvent::StoppedSpeaking => true,
            _ => false,
        }
    }
}

} // verus!
