//! Configuration of the cpal-based multi-channel capture.
use vstd::prelude::*;

verus! {

/// Audio capture configuration.
#[derive(Debug, Clone)]
pub struct AudioCaptureConfig {
    pub sample_rate: u32,
    pub channels: usize,
    pub device_name: Option<String>,
    pub buffer_size: usize,
    pub target_latency_ms: u32,
}

impl Default for AudioCaptureConfig {
    fn default() -> (r: Self)
        ensures
            r.sample_rate == 16000,
            r.channels == 6,
            r.device_name is None,
            r.buffer_size == 1024,
            r.target_latency_ms == 50,
    {
        Self { sample_rate: 16000, channels: 6, device_name: None, buffer_size: 1024, target_latency_ms: 50 }
    }
}

} // verus!
