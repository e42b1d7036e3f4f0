//! The mel spectrogram model: its configuration and the checks made before
//! the TensorFlow Lite interpreter is involved.
//!
//! The interpreter itself (loading the model, running it on floating-point
//! tensors, and the `x / 10 + 2` rescaling of its output) is not linked into
//! the library; it is set up by the caller once these checks pass.
use vstd::prelude::*;
use crate::error::EdgeError;
use crate::text::{decimal_chars, push_decimal, push_str, string_of};

verus! {

/// Configuration for mel spectrogram processing.
#[derive(Debug, Clone)]
pub struct MelSpectrogramConfig {
    /// Path to the model file.
    pub model_path: String,
    /// Audio chunk size in samples (1280 = 80 ms at 16 kHz).
    pub chunk_size: usize,
    /// Sample rate in Hz.
    pub sample_rate: u32,
}

impl MelSpectrogramConfig {
    /// The default configuration with another model path.
    pub fn with_model_path(model_path: &str) -> (c: Self)
        ensures
            c.model_path@ == model_path@,
            c.chunk_size == 1280,
            c.sample_rate == 16000,
    {
        Self { model_path: string_of(model_path), chunk_size: 1280, sample_rate: 16000 }
    }
}

impl Default for MelSpectrogramConfig {
    fn default() -> (c: Self)
        ensures
            c.model_path@ == "models/melspectrogram.tflite"@,
            c.chunk_size == 1280,
            c.sample_rate == 16000,
    {
        Self::with_model_path("models/melspectrogram.tflite")
    }
}

/// Asks the file system whether `path` names an existing file or
/// directory (`std::path::Path::exists`). Nothing is stated of the answer:
/// it depends on the disk.
#[verifier::external_body]
fn path_exists(path: &str) -> bool {
    std::path::Path::new(path).exists()
}

/// Mel spectrogram model used by the detection pipeline: turns 80 ms of
/// raw audio into mel spectrogram features.
pub struct MelSpectrogramModel {
    config: MelSpectrogramConfig,
}

impl MelSpectrogramModel {
    /// The configuration the model was set up with.
    pub closed spec fn config(&self) -> MelSpectrogramConfig {
        self.config
    }

    /// Sets the model up from `model_path` once it is known whether a file
    /// exists there: refused when it does not; otherwise the model holds the
    /// default configuration with that path.
    pub fn checked(model_path: &str, exists: bool) -> (r: Result<Self, EdgeError>)
        ensures
            r is Ok <==> exists,
            r matches Ok(m) ==> m.config().model_path@ == model_path@ && m.config().chunk_size == 1280
                && m.config().sample_rate == 16000,
            r matches Err(e) ==> (e matches EdgeError::ModelLoadError(m) && m@ == "Model file not found: "@
                + model_path@),
    {
        let config = MelSpectrogramConfig::with_model_path(model_path);
        if !exists {
            let mut m = string_of("Model file not found: ");
            push_str(&mut m, config.model_path.as_str());
            return Err(EdgeError::ModelLoadError(m));
        }
        Ok(Self { config })
    }

    /// Checks the model file at `model_path`: refused when it does not
    /// exist. The interpreter is then built from it by the caller.
    /// Whether the file exists is asked of the file system, so no clause
    /// says which of the two outcomes comes; [`MelSpectrogramModel::checked`]
    /// states each of them.
    pub fn new(model_path: &str) -> (r: Result<Self, EdgeError>)
        ensures
            r matches Ok(m) ==> m.config().model_path@ == model_path@ && m.config().chunk_size == 1280
                && m.config().sample_rate == 16000,
            r matches Err(e) ==> (e matches EdgeError::ModelLoadError(m) && m@ == "Model file not found: "@
                + model_path@),
    {
        Self::checked(model_path, path_exists(model_path))
    }

    /// Checks the number of audio samples handed to the model: exactly one
    /// chunk of 1280.
    pub fn check_input(len: usize) -> (r: Result<(), EdgeError>)
        ensures
            len == 1280 <==> r is Ok,
            r matches Err(e) ==> (e matches EdgeError::InvalidInput(m) && m@ == "Expected 1280 audio samples, got "@
                + decimal_chars(len as nat)),
    {
        if len != 1280 {
            let mut m = string_of("Expected 1280 audio samples, got ");
            push_decimal(&mut m, len as u64);
            return Err(EdgeError::InvalidInput(m));
        }
        Ok(())
    }
}

} // verus!
