//! Picking one channel out of interleaved multi-channel audio.
use vstd::prelude::*;
use crate::error::EdgeError;
use crate::text::{decimal_chars, push_decimal, push_str, string_of};

verus! {

/// Extracts a specific channel from interleaved multi-channel audio.
pub struct ChannelExtractor {
    target_channel: usize,
    total_channels: usize,
}

impl Clone for ChannelExtractor {
    fn clone(&self) -> (r: Self)
        ensures
            r.spec_target_channel() == self.spec_target_channel(),
            r.spec_total_channels() == self.spec_total_channels(),
    {
        proof {
            use_type_invariant(self);
        }
        Self { target_channel: self.target_channel, total_channels: self.total_channels }
    }
}

impl ChannelExtractor {
    #[verifier::type_invariant]
    spec fn inv(self) -> bool {
        self.target_channel < self.total_channels
    }

    pub closed spec fn spec_target_channel(&self) -> usize {
        self.target_channel
    }

    pub closed spec fn spec_total_channels(&self) -> usize {
        self.total_channels
    }

    /// An extractor for `target_channel` out of `total_channels`; refused
    /// when the channel does not exist.
    pub fn new(target_channel: usize, total_channels: usize) -> (r: Result<Self, EdgeError>)
        ensures
            target_channel < total_channels <==> r is Ok,
            r matches Ok(x) ==> x.spec_target_channel() == target_channel
                && x.spec_total_channels() == total_channels,
            r matches Err(e) ==> e matches EdgeError::Audio(m) && m@ == "Target channel "@
                + decimal_chars(target_channel as nat) + " is out of range for "@ + decimal_chars(
                total_channels as nat,
            ) + " channels"@,
    {
        if target_channel >= total_channels {
            let mut m = string_of("Target channel ");
            push_decimal(&mut m, target_channel as u64);
            push_str(&mut m, " is out of range for ");
            push_decimal(&mut m, total_channels as u64);
            push_str(&mut m, " channels");
            return Err(EdgeError::Audio(m));
        }
        Ok(Self { target_channel, total_channels })
    }

    pub fn target_channel(&self) -> (c: usize)
        ensures
            c == self.spec_target_channel(),
            c < self.spec_total_channels(),
    {
        proof {
            use_type_invariant(self);
        }
        self.target_channel
    }

    pub fn total_channels(&self) -> (c: usize)
        ensures
            c == self.spec_total_channels(),
            c > 0,
    {
        proof {
            use_type_invariant(self);
        }
        self.total_channels
    }

    /// Whether the `i`-th interleaved sample belongs to the target channel
    /// (every sample does for mono audio).
    pub fn takes_sample(&self, i: usize) -> (b: bool)
        ensures
            b == (self.spec_total_channels() == 1 || i % self.spec_total_channels()
                == self.spec_target_channel()),
    {
        proof {
            use_type_invariant(self);
        }
        self.total_channels == 1 || i % self.total_channels == self.target_channel
    }
}

} // verus!
