use audio::audio::ChannelExtractor;
use audio::audio_capture::{AudioChunk, ChunkAccumulator, RecentChunks, CHUNK_SIZE};
use audio::audio_sink::{decode_s16le, sort_queued_chunks, stream_prime_samples_for, AudioError};
use audio::error::EdgeError;
use audio::models::melspectrogram::MelSpectrogramConfig;
use audio::platform::{AudioFormatSpec, AudioPlatform, PlatformSampleFormat};
use audio::resampler::SimpleResampler;
use audio::vad::{ChunkSize, VADSampleRate};
use std::time::Instant;

#[test]
fn test_melspec_config_default() {
    let config = MelSpectrogramConfig::default();
    assert_eq!(config.model_path, "models/melspectrogram.tflite");
    assert_eq!(config.chunk_size, 1280);
    assert_eq!(config.sample_rate, 16000);
}

#[test]
fn channel_extractor_checks_range() {
    let e = ChannelExtractor::new(2, 6).unwrap();
    assert_eq!(e.target_channel(), 2);
    assert_eq!(e.total_channels(), 6);
    assert!(e.takes_sample(8));
    assert!(!e.takes_sample(9));
    match ChannelExtractor::new(6, 6) {
        Err(EdgeError::Audio(m)) => assert_eq!(m, "Target channel 6 is out of range for 6 channels"),
        _ => panic!("expected an error"),
    }
    let mono = ChannelExtractor::new(0, 1).unwrap();
    assert!(mono.takes_sample(5));
}

#[test]
fn chunk_accumulator_cuts_full_chunks() {
    let mut acc = ChunkAccumulator::new();
    // two interleaved channels; channel 1 carries 0,1,2,...
    let mut data = Vec::new();
    for i in 0..(CHUNK_SIZE as i16 + 10) {
        data.push(-1);
        data.push(i);
    }
    let chunks = acc.push_frames(&data, 2, 1);
    assert_eq!(chunks.len(), 1);
    assert_eq!(chunks[0].len(), CHUNK_SIZE);
    assert_eq!(chunks[0][0], 0);
    assert_eq!(chunks[0][CHUNK_SIZE - 1], CHUNK_SIZE as i16 - 1);
    let more: Vec<i16> = (0..(2 * (CHUNK_SIZE - 10))).map(|i| i as i16).collect();
    let chunks = acc.push_frames(&more, 2, 1);
    assert_eq!(chunks.len(), 1);
    assert_eq!(chunks[0][0], CHUNK_SIZE as i16);
    assert_eq!(chunks[0][10], 1);
    // a channel the frames do not have yields nothing
    assert!(acc.push_frames(&more, 2, 5).is_empty());
}

#[test]
fn recent_chunks_keep_the_last_forty_in_order() {
    let mut r = RecentChunks::new();
    let now = Instant::now();
    for i in 0..45i16 {
        r.push(AudioChunk { samples: vec![i, i], timestamp: now });
    }
    assert_eq!(r.len(), 40);
    assert_eq!(r.max_len(), 40);
    let flat = r.flat_samples();
    assert_eq!(flat.len(), 80);
    assert_eq!(flat[0], 5);
    assert_eq!(flat[79], 44);
}

#[test]
fn s16le_decoding() {
    let v = decode_s16le(&[0x00, 0x10, 0x00, 0x20, 0xff, 0xff, 0x00, 0x80]).unwrap();
    assert_eq!(v, vec![4096, 8192, -1, -32768]);
    match decode_s16le(&[1, 2, 3]) {
        Err(AudioError::WriteError(m)) => assert_eq!(m, "S16LE data length not aligned to 16-bit samples"),
        _ => panic!("expected an error"),
    }
}

#[test]
fn stream_prime_watermark() {
    assert_eq!(stream_prime_samples_for(None), 24000);
    assert_eq!(stream_prime_samples_for(Some(10)), 2400);
    assert_eq!(stream_prime_samples_for(Some(100)), 4800);
    assert_eq!(stream_prime_samples_for(Some(10_000)), 96000);
}

#[test]
fn queued_chunks_of_the_new_stream_are_kept_in_order() {
    let (kept, dropped) = sort_queued_chunks(&[3, 4, 3, 5, 4], 4);
    assert_eq!(kept, vec![1, 4]);
    assert_eq!(dropped, 3);
}

#[test]
fn platform_formats() {
    let c = AudioPlatform::RaspberryPi.capture_config();
    assert_eq!(c.preferred_sample_rate, 16000);
    assert_eq!(c.channel_count, 6);
    assert_eq!(c.description, "RespeakerPi 4-mic USB array");
    let c = AudioPlatform::MacOS.capture_config();
    assert_eq!(c.preferred_format, PlatformSampleFormat::F32);
    assert_eq!(AudioPlatform::MacOS.playback_config().description, "macOS built-in speakers");
    assert_eq!(
        AudioPlatform::MacOS.stt_format(),
        AudioFormatSpec { sample_rate: 16000, format: PlatformSampleFormat::I16, channels: 1 }
    );
    assert_eq!(AudioPlatform::RaspberryPi.tts_format().sample_rate, 48000);
    assert_eq!(AudioPlatform::RaspberryPi.to_string(), "Raspberry Pi");
    assert_eq!(PlatformSampleFormat::F32.to_string(), "f32");
}

#[test]
fn vad_sizes_and_rates() {
    assert_eq!(ChunkSize::Small.samples(), 512);
    assert_eq!(ChunkSize::Medium.samples(), 768);
    assert_eq!(ChunkSize::Large.samples(), 1024);
    assert_eq!(u32::from(VADSampleRate::Rate8kHz), 8000);
    assert_eq!(u32::from(VADSampleRate::Rate16kHz), 16000);
    assert_eq!(VADSampleRate::Rate16kHz.name(), "16kHz");
}

#[test]
fn resampler_sizes() {
    let mut r = SimpleResampler::new().unwrap();
    assert_eq!(r.expected_output_size(1280), 3840);
    assert_eq!(r.expected_output_size(0), 0);
    assert!(r.flush().unwrap().is_empty());
    assert_eq!(r.input_rate(), 16000);
    assert_eq!(r.output_rate(), 48000);
}
