//! Audio formats of the supported platforms.
use vstd::prelude::*;
use crate::text::string_of;

verus! {

/// Supported audio platforms.
#[derive(Debug, Clone, Copy, PartialEq, Eq, Structural)]
pub enum AudioPlatform {
    /// Raspberry Pi with RespeakerPi USB array and I2S DAC.
    RaspberryPi,
    /// macOS with built-in audio hardware.
    MacOS,
}

/// Platform-specific sample format.
#[derive(Debug, Clone, Copy, PartialEq, Eq, Structural)]
pub enum PlatformSampleFormat {
    I16,
    F32,
}

/// Platform-specific audio capture configuration.
#[derive(Debug, Clone)]
pub struct PlatformCaptureConfig {
    /// Preferred sample rate of the hardware.
    pub preferred_sample_rate: u32,
    /// Native sample format.
    pub preferred_format: PlatformSampleFormat,
    /// Number of channels the hardware provides.
    pub channel_count: u32,
    /// Which channel to extract (0-based).
    pub target_channel: u32,
    /// Human-readable description.
    pub description: &'static str,
}

/// Platform-specific audio playback configuration.
#[derive(Debug, Clone)]
pub struct PlatformPlaybackConfig {
    pub sample_rate: u32,
    pub format: PlatformSampleFormat,
    pub channels: u32,
    pub description: &'static str,
}

/// Generic audio format specification.
#[derive(Debug, Clone, Copy, PartialEq, Eq, Structural)]
pub struct AudioFormatSpec {
    pub sample_rate: u32,
    pub format: PlatformSampleFormat,
    pub channels: u32,
}

impl AudioPlatform {
    /// The capture configuration of the platform.
    pub fn capture_config(self) -> (c: PlatformCaptureConfig)
        ensures
            self == AudioPlatform::RaspberryPi ==> c.preferred_sample_rate == 16000 && c.preferred_format
                == PlatformSampleFormat::I16 && c.channel_count == 6 && c.target_channel == 0
                && c.description@ == "RespeakerPi 4-mic USB array"@,
            self == AudioPlatform::MacOS ==> c.preferred_sample_rate == 44100 && c.preferred_format
                == PlatformSampleFormat::F32 && c.channel_count == 1 && c.target_channel == 0
                && c.description@ == "macOS built-in microphone"@,
    {
        match self {
            AudioPlatform::RaspberryPi => PlatformCaptureConfig {
                preferred_sample_rate: 16000,
                preferred_format: PlatformSampleFormat::I16,
                channel_count: 6,
                target_channel: 0,
                description: "RespeakerPi 4-mic USB array",
            },
            AudioPlatform::MacOS => PlatformCaptureConfig {
                preferred_sample_rate: 44100,
                preferred_format: PlatformSampleFormat::F32,
                channel_count: 1,
                target_channel: 0,
                description: "macOS built-in microphone",
            },
        }
    }

    /// The playback configuration of the platform (48 kHz stereo on both).
    pub fn playback_config(self) -> (c: PlatformPlaybackConfig)
        ensures
            c.sample_rate == 48000,
            c.channels == 2,
            self == AudioPlatform::RaspberryPi ==> c.format == PlatformSampleFormat::I16
                && c.description@ == "Raspberry Pi I2S DAC"@,
            self == AudioPlatform::MacOS ==> c.format == PlatformSampleFormat::F32 && c.description@
                == "macOS built-in speakers"@,
    {
        match self {
            AudioPlatform::RaspberryPi => PlatformPlaybackConfig {
                sample_rate: 48000,
                format: PlatformSampleFormat::I16,
                channels: 2,
                description: "Raspberry Pi I2S DAC",
            },
            AudioPlatform::MacOS => PlatformPlaybackConfig {
                sample_rate: 48000,
                format: PlatformSampleFormat::F32,
                channels: 2,
                description: "macOS built-in speakers",
            },
        }
    }

    /// The TTS output format: 48 kHz, i16, mono, on every platform.
    pub fn tts_format(self) -> (f: AudioFormatSpec)
        ensures
            f == (AudioFormatSpec { sample_rate: 48000, format: PlatformSampleFormat::I16, channels: 1 }),
    {
        AudioFormatSpec { sample_rate: 48000, format: PlatformSampleFormat::I16, channels: 1 }
    }

    /// The STT and wake word input format: 16 kHz, i16, mono, on every platform.
    pub fn stt_format(self) -> (f: AudioFormatSpec)
        ensures
            f == (AudioFormatSpec { sample_rate: 16000, format: PlatformSampleFormat::I16, channels: 1 }),
    {
        AudioFormatSpec { sample_rate: 16000, format: PlatformSampleFormat::I16, channels: 1 }
    }

    /// The platform's display name.
    pub fn to_string(&self) -> (s: String)
        ensures
            *self == AudioPlatform::RaspberryPi ==> s@ == "Raspberry Pi"@,
            *self == AudioPlatform::MacOS ==> s@ == "macOS"@,
    {
        match self {
            AudioPlatform::RaspberryPi => string_of("Raspberry Pi"),
            AudioPlatform::MacOS => string_of("macOS"),
        }
    }
}

impl PlatformSampleFormat {
    /// The format's display name.
    pub fn to_string(&self) -> (s: String)
        ensures
            *self == PlatformSampleFormat::I16 ==> s@ == "i16"@,
            *self == PlatformSampleFormat::F32 ==> s@ == "f32"@,
    {
        match self {
            PlatformSampleFormat::I16 => string_of("i16"),
            PlatformSampleFormat::F32 => string_of("f32"),
        }
    }
}

} // verus!
