//! The library's error type for capture, models and pipelines.
use vstd::prelude::*;
use crate::audio_capture::AudioCaptureError;
use crate::stt::STTError;

verus! {

#[derive(Debug)]
pub enum EdgeError {
    Audio(String),
    AudioCapture(AudioCaptureError),
    STT(STTError),
    ModelLoadError(String),
    ProcessingError(String),
    Pipeline(String),
    InvalidInput(String),
    VADError(String),
    Io(std::io::Error),
    Serialization(String),
    Unknown(String),
}

impl From<AudioCaptureError> for EdgeError {
    fn from(err: AudioCaptureError) -> (r: Self) {
        EdgeError::AudioCapture(err)
    }
}

impl vstd::std_specs::convert::FromSpecImpl<AudioCaptureError> for EdgeError {
    open spec fn obeys_from_spec() -> bool {
        true
    }

    open spec fn from_spec(v: AudioCaptureError) -> EdgeError {
        EdgeError::AudioCapture(v)
    }
}

impl From<STTError> for EdgeError {
    fn from(err: STTError) -> (r: Self) {
        EdgeError::STT(err)
    }
}

impl vstd::std_specs::convert::FromSpecImpl<STTError> for EdgeError {
    open spec fn obeys_from_spec() -> bool {
        true
    }

    open spec fn from_spec(v: STTError) -> EdgeError {
        EdgeError::STT(v)
    }
}

} // verus!
