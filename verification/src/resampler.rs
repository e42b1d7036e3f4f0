//! The 16 kHz to 48 kHz resampler's fixed rates and sizes.
//!
//! The resampling itself runs on floating-point samples through
//! libsamplerate and stays outside the library.
use vstd::prelude::*;
use crate::text::string_of;

verus! {

/// Why resampling failed.
#[derive(Debug, Clone)]
pub struct ResampleError {
    pub message: String,
}

/// Resampler from mono 16 kHz s16le to mono 48 kHz s16le.
pub struct SimpleResampler {
    input_rate: u32,
    output_rate: u32,
}

/// Whether the non-negative integer `x`, below 2^55, is held exactly by a
/// double: below 2^53 always, below 2^54 when even, and otherwise when
/// divisible by four.
pub open spec fn exact_in_double(x: int) -> bool {
    ||| x <= 0x20_0000_0000_0000
    ||| (x < 0x40_0000_0000_0000 && x % 2 == 0)
    ||| (x < 0x80_0000_0000_0000 && x % 4 == 0)
}

impl SimpleResampler {
    #[verifier::type_invariant]
    spec fn inv(self) -> bool {
        self.input_rate == 16000 && self.output_rate == 48000
    }

    pub closed spec fn spec_input_rate(&self) -> u32 {
        self.input_rate
    }

    pub closed spec fn spec_output_rate(&self) -> u32 {
        self.output_rate
    }

    /// A resampler for 16 kHz to 48 kHz; creating one never fails.
    pub fn new() -> (r: Result<Self, ResampleError>)
        ensures
            r matches Ok(s) && s.spec_input_rate() == 16000 && s.spec_output_rate() == 48000,
    {
        Ok(Self { input_rate: 16000, output_rate: 48000 })
    }

    pub fn input_rate(&self) -> (r: u32)
        ensures
            r == 16000,
    {
        proof {
            use_type_invariant(self);
        }
        self.input_rate
    }

    pub fn output_rate(&self) -> (r: u32)
        ensures
            r == 48000,
    {
        proof {
            use_type_invariant(self);
        }
        self.output_rate
    }

    /// Conversion is stateless, so nothing is left to flush.
    pub fn flush(&mut self) -> (r: Result<Vec<u8>, ResampleError>)
        ensures
            r matches Ok(v) && v@.len() == 0,
            final(self).spec_input_rate() == old(self).spec_input_rate(),
            final(self).spec_output_rate() == old(self).spec_output_rate(),
    {
        Ok(Vec::new())
    }

    /// Samples produced for `input_sample_count` input samples: three times
    /// as many (48000 / 16000). The count is taken for every input whose
    /// triple a double holds exactly: any count up to 2^53 whose triple is
    /// below 2^53, even counts up to 2^52, and counts up to 2^53 divisible
    /// by four; the triple must also fit in a `usize`.
    pub fn expected_output_size(&self, input_sample_count: usize) -> (n: usize)
        requires
            input_sample_count as int * 3 <= usize::MAX,
            exact_in_double(input_sample_count as int * 3),
            input_sample_count as int <= 0x20_0000_0000_0000,
        ensures
            n == input_sample_count * 3,
    {
        proof {
            use_type_invariant(self);
        }
        let ratio = (self.output_rate / self.input_rate) as usize;
        input_sample_count * ratio
    }

    /// The error for s16le input of odd length.
    pub fn odd_input_error() -> (e: ResampleError)
        ensures
            e.message@ == "Input must be valid s16le (even number of bytes)"@,
    {
        ResampleError { message: string_of("Input must be valid s16le (even number of bytes)") }
    }
}

} // verus!
