//! The PulseAudio capture: its configuration, the buffer hint it gives the
//! server, and the bookkeeping that cuts the captured samples into chunks.
//!
//! The connection to PulseAudio and the capture thread stay outside the
//! library, as does the conversion between float and 16-bit samples.
use vstd::prelude::*;
use crate::audio::channel::ChannelExtractor;
use crate::error::EdgeError;
use crate::text::{decimal_chars, push_decimal, push_str, string_of};

verus! {

/// Configuration for PulseAudio capture.
#[derive(Debug, Clone)]
pub struct PulseAudioCaptureConfig {
    pub sample_rate: u32,
    pub channels: u8,
    pub device_name: Option<String>,
    /// Target latency in milliseconds, passed to PulseAudio as a buffer hint.
    pub target_latency_ms: u32,
    pub app_name: String,
    pub stream_name: String,
}

impl Default for PulseAudioCaptureConfig {
    fn default() -> (r: Self)
        ensures
            r.sample_rate == 16000,
            r.channels == 6,
            r.device_name is None,
            r.target_latency_ms == 50,
            r.app_name@ == "agent-edge"@,
            r.stream_name@ == "wakeword-capture"@,
    {
        Self {
            sample_rate: 16000,
            channels: 6,
            device_name: None,
            target_latency_ms: 50,
            app_name: string_of("agent-edge"),
            stream_name: string_of("wakeword-capture"),
        }
    }
}

impl PulseAudioCaptureConfig {
    /// The fragment size asked of PulseAudio so that it delivers audio
    /// every `target_latency_ms`: whole milliseconds of samples at the
    /// sample rate, for every channel, two bytes each.
    pub fn fragment_bytes(&self) -> (n: u32)
        requires
            (self.sample_rate / 1000) * self.target_latency_ms <= u32::MAX,
            (self.sample_rate / 1000) * self.target_latency_ms * self.channels * 2 <= u32::MAX,
        ensures
            n == (self.sample_rate / 1000) * self.target_latency_ms * self.channels * 2,
    {
        let samples_per_ms: u32 = self.sample_rate / 1000;
        let samples_for_latency: u32 = samples_per_ms * self.target_latency_ms;
        assert(samples_for_latency * (self.channels as u32) <= u32::MAX) by (nonlinear_arith)
            requires
                samples_for_latency * self.channels * 2 <= u32::MAX,
                samples_for_latency >= 0,
        ;
        samples_for_latency * (self.channels as u32) * 2
    }
}

/// The extractor of the first channel out of `channels` interleaved ones;
/// refused when there are no channels.
pub fn capture_channel_extractor(channels: u8) -> (r: Result<ChannelExtractor, EdgeError>)
    ensures
        r is Ok <==> channels > 0,
        r matches Ok(x) ==> x.spec_target_channel() == 0 && x.spec_total_channels() == channels,
        r matches Err(e) ==> (e matches EdgeError::Audio(m) && m@
            == "Failed to create channel extractor: Audio capture error: Target channel 0 is out of range for "@
            + decimal_chars(channels as nat) + " channels"@),
{
    match ChannelExtractor::new(0, channels as usize) {
        Ok(x) => Ok(x),
        Err(_) => {
            let mut m = string_of("Failed to create channel extractor: Audio capture error: Target channel 0 is out of range for ");
            push_decimal(&mut m, channels as u64);
            push_str(&mut m, " channels");
            Err(EdgeError::Audio(m))
        },
    }
}

/// Captured samples waiting to be handed out in chunks.
pub struct CaptureBuffer {
    samples: Vec<i16>,
}

impl View for CaptureBuffer {
    type V = Seq<i16>;

    closed spec fn view(&self) -> Seq<i16> {
        self.samples@
    }
}

impl CaptureBuffer {
    pub fn new() -> (r: Self)
        ensures
            r@.len() == 0,
    {
        Self { samples: Vec::new() }
    }

    /// The number of samples waiting.
    pub fn len(&self) -> (n: usize)
        ensures
            n == self@.len(),
    {
        self.samples.len()
    }

    /// Whether fewer than `size` samples wait, so that more are to be
    /// captured before a chunk of `size` can be handed out.
    pub fn needs_more(&self, size: usize) -> (b: bool)
        ensures
            b == (self@.len() < size),
    {
        self.samples.len() < size
    }

    /// Adds newly captured samples after those waiting.
    pub fn extend(&mut self, samples: &[i16])
        requires
            old(self)@.len() + samples@.len() <= usize::MAX,
        ensures
            final(self)@ == old(self)@ + samples@,
    {
        let mut k: usize = 0;
        while k < samples.len()
            invariant
                k <= samples@.len(),
                self@ == old(self)@ + samples@.subrange(0, k as int),
            decreases samples@.len() - k,
        {
            self.samples.push(samples[k]);
            assert(samples@.subrange(0, k + 1) =~= samples@.subrange(0, k as int).push(samples@[k as int]));
            k += 1;
        }
        assert(samples@.subrange(0, k as int) =~= samples@);
    }

    /// Hands out the oldest `size` samples; the rest keep waiting.
    pub fn take_chunk(&mut self, size: usize) -> (chunk: Vec<i16>)
        requires
            size <= old(self)@.len(),
        ensures
            chunk@ == old(self)@.subrange(0, size as int),
            final(self)@ == old(self)@.subrange(size as int, old(self)@.len() as int),
    {
        let mut rest: Vec<i16> = Vec::new();
        let mut chunk: Vec<i16> = Vec::new();
        let n = self.samples.len();
        let mut k: usize = 0;
        while k < n
            invariant
                k <= n,
                n == self.samples@.len(),
                size <= n,
                k <= size ==> chunk@ == self.samples@.subrange(0, k as int) && rest@.len() == 0,
                k > size ==> chunk@ == self.samples@.subrange(0, size as int) && rest@
                    == self.samples@.subrange(size as int, k as int),
            decreases n - k,
        {
            if k < size {
                chunk.push(self.samples[k]);
                assert(self.samples@.subrange(0, k + 1) =~= self.samples@.subrange(0, k as int).push(
                    self.samples@[k as int],
                ));
            } else {
                rest.push(self.samples[k]);
                assert(self.samples@.subrange(size as int, k + 1) =~= self.samples@.subrange(
                    size as int,
                    k as int,
                ).push(self.samples@[k as int]));
            }
            k += 1;
        }
        if n == size {
            assert(rest@ =~= self.samples@.subrange(size as int, n as int));
        }
        self.samples = rest;
        chunk
    }
}

} // verus!
