//! The wake word model: the check made on its input before the
//! TensorFlow Lite interpreter runs.
//!
//! The interpreter itself (loading the model and running it on
//! floating-point features) is not linked into the library; it is set up
//! by the caller.
use vstd::prelude::*;
use crate::error::EdgeError;
use crate::text::{decimal_chars, push_decimal, string_of};

verus! {

/// Features the model takes: 16 embedding frames of 96 features.
pub const WAKEWORD_INPUT_SIZE: usize = 1536;

/// Wake word model used by the detection pipeline.
pub struct WakewordModel;

impl WakewordModel {
    /// Checks the number of features handed to the model: exactly
    /// [`WAKEWORD_INPUT_SIZE`].
    pub fn check_features(len: usize) -> (r: Result<(), EdgeError>)
        ensures
            len == WAKEWORD_INPUT_SIZE <==> r is Ok,
            r matches Err(e) ==> (e matches EdgeError::InvalidInput(m) && m@ == "Expected 1536 features, got "@
                + decimal_chars(len as nat)),
    {
        if len != WAKEWORD_INPUT_SIZE {
            let mut m = string_of("Expected 1536 features, got ");
            push_decimal(&mut m, len as u64);
            return Err(EdgeError::InvalidInput(m));
        }
        Ok(())
    }
}

} // verus!
