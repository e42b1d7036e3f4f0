use audio::audio::pulse_capture::{capture_channel_extractor, CaptureBuffer, PulseAudioCaptureConfig};
use audio::audio_source::{best_input_config, check_stream_config, AudioCaptureError, InputRange, S16leChunker, CHUNK_BYTES};
use audio::audio_sink::decode_s16le;
use audio::error::EdgeError;
use audio::models::melspectrogram::MelSpectrogramModel;
use audio::models::wakeword::WakewordModel;
use audio::wakeword_vad::{SampleWindows, VAD_WINDOW};

#[test]
fn test_melspec_model_creation() {
    let result = MelSpectrogramModel::new("non_existent_model.tflite");
    assert!(result.is_err());
}

#[test]
fn model_input_checks() {
    match MelSpectrogramModel::new("non_existent_model.tflite") {
        Err(EdgeError::ModelLoadError(m)) => assert_eq!(m, "Model file not found: non_existent_model.tflite"),
        _ => panic!("expected a model load error"),
    }
    assert!(MelSpectrogramModel::check_input(1280).is_ok());
    match MelSpectrogramModel::check_input(1000) {
        Err(EdgeError::InvalidInput(m)) => assert_eq!(m, "Expected 1280 audio samples, got 1000"),
        _ => panic!("expected invalid input"),
    }
    assert!(WakewordModel::check_features(1536).is_ok());
    match WakewordModel::check_features(96) {
        Err(EdgeError::InvalidInput(m)) => assert_eq!(m, "Expected 1536 features, got 96"),
        _ => panic!("expected invalid input"),
    }
}

#[test]
fn melspec_model_checked_outcomes() {
    assert!(MelSpectrogramModel::checked("models/melspectrogram.tflite", true).is_ok());
    match MelSpectrogramModel::checked("models/melspectrogram.tflite", false) {
        Err(EdgeError::ModelLoadError(m)) => assert_eq!(m, "Model file not found: models/melspectrogram.tflite"),
        _ => panic!("expected a model load error"),
    }
    // The current directory always exists, so the file system check passes.
    assert!(MelSpectrogramModel::new(".").is_ok());
}

#[test]
fn input_config_choice() {
    let ranges = [
        InputRange { channels: 1, is_i16: true, min_rate: 16000, max_rate: 16000 },
        InputRange { channels: 6, is_i16: false, min_rate: 16000, max_rate: 16000 },
        InputRange { channels: 6, is_i16: true, min_rate: 44100, max_rate: 48000 },
        InputRange { channels: 6, is_i16: true, min_rate: 8000, max_rate: 48000 },
    ];
    // Channel 2 needs a range with at least three channels.
    assert_eq!(best_input_config(&ranges, 2).unwrap(), (3, 16000));
    assert_eq!(best_input_config(&ranges, 0).unwrap(), (0, 16000));
    match best_input_config(&ranges, 6) {
        Err(AudioCaptureError::Config(m)) => assert_eq!(m, "No supported input configs found"),
        _ => panic!("expected a config error"),
    }
}

#[test]
fn stream_config_checks() {
    assert!(check_stream_config(0, 2, true, "I16", 16000).is_ok());
    match check_stream_config(2, 2, true, "I16", 16000) {
        Err(AudioCaptureError::Config(m)) => assert_eq!(m, "Selected channel 2 is not available (device has 2 channels)"),
        _ => panic!(),
    }
    match check_stream_config(0, 2, false, "F32", 16000) {
        Err(AudioCaptureError::Config(m)) => assert_eq!(m, "Expected I16 sample format, got F32"),
        _ => panic!(),
    }
    match check_stream_config(0, 2, true, "I16", 48000) {
        Err(AudioCaptureError::Config(m)) => assert_eq!(m, "Expected 16kHz sample rate, got 48000Hz"),
        _ => panic!(),
    }
}

#[test]
fn capture_callback_chunks() {
    let mut c = S16leChunker::new();
    // Two channels; channel 1 carries 1, -2, 3.
    c.push_frames(&[100, 1, 200, -2, 300, 3], 2, 1);
    assert!(c.pop_chunk().is_none());
    let samples: Vec<i16> = (0..1280).map(|k| k as i16 - 640).collect();
    c.push_frames(&samples, 1, 0);
    let chunk = c.pop_chunk().unwrap();
    assert_eq!(chunk.len(), CHUNK_BYTES);
    let decoded = decode_s16le(&chunk).unwrap();
    assert_eq!(&decoded[..3], &[1, -2, 3]);
    assert_eq!(&decoded[3..], &samples[..1277]);
    assert!(c.pop_chunk().is_none());
}

#[test]
fn vad_windows_regroup_chunks() {
    let mut w = SampleWindows::new();
    let a: Vec<i16> = (0..1280).map(|k| k as i16).collect();
    let first = w.push(&a);
    assert_eq!(first.len(), 2);
    assert_eq!(first[1][0], VAD_WINDOW as i16);
    assert_eq!(w.buffer_samples(), 256);
    let second = w.push(&a);
    assert_eq!(second.len(), 3);
    assert_eq!(second[0][0], 1024);
    assert_eq!(second[0][256], 0);
    assert_eq!(w.buffer_samples(), 0);
    w.push(&a[..10]);
    w.reset();
    assert_eq!(w.buffer_samples(), 0);
}

#[test]
fn pulse_capture_bookkeeping() {
    let cfg = PulseAudioCaptureConfig::default();
    assert_eq!(cfg.fragment_bytes(), 16 * 50 * 6 * 2);
    assert!(capture_channel_extractor(6).is_ok());
    match capture_channel_extractor(0) {
        Err(EdgeError::Audio(m)) => assert_eq!(
            m,
            "Failed to create channel extractor: Audio capture error: Target channel 0 is out of range for 0 channels"
        ),
        _ => panic!(),
    }
    let mut b = CaptureBuffer::new();
    assert!(b.needs_more(4));
    b.extend(&[1, 2, 3]);
    b.extend(&[4, 5]);
    assert!(!b.needs_more(4));
    assert_eq!(b.take_chunk(4), vec![1, 2, 3, 4]);
    assert_eq!(b.len(), 1);
}
