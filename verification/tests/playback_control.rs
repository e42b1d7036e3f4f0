use audio::audio_sink::{
    atomic_max_u64, atomic_min_u64, best_output_config, callback_action, decode_s16le, fill_interleaved,
    AudioError, CallbackAction, OutputRange, PlaybackControl, QueuedCommand,
};
use std::sync::atomic::{AtomicU64, Ordering};

fn chunk(data: u8, stream_id: u64) -> QueuedCommand<Vec<u8>, u32> {
    QueuedCommand::Chunk { data: vec![data], stream_id }
}

#[test]
fn first_stream_primes_then_plays() {
    let mut c: PlaybackControl<u32> = PlaybackControl::new();
    assert!(!c.is_switch(7));
    let start = c.start_chunk::<Vec<u8>>(7, Vec::new());
    assert!(!start.clear_ring);
    assert!(start.signal.is_empty() && start.follow.is_empty() && start.dropped == 0);
    assert_eq!(c.current_stream_id(), 7);
    assert!(!c.is_playing());
    // Below the watermark the output keeps priming.
    assert!(c.after_push(1000, 24000, true).is_empty());
    assert!(!c.is_playing());
    // At the watermark playback starts.
    assert!(c.after_push(24000, 24000, true).is_empty());
    assert!(c.is_playing());
    // The same stream keeps playing.
    let again = c.start_chunk::<Vec<u8>>(7, Vec::new());
    assert!(!again.clear_ring);
    assert!(c.is_playing());
}

#[test]
fn short_stream_is_released_at_its_end_and_completes() {
    let mut c: PlaybackControl<u32> = PlaybackControl::new();
    c.start_chunk::<Vec<u8>>(3, Vec::new());
    assert!(c.after_push(4800, 24000, true).is_empty());
    assert!(!c.is_playing());
    c.end_stream(11, 4800);
    assert!(c.is_playing());
    // Still buffered: nobody is told yet.
    assert!(c.settle(true, 100).is_empty());
    // Queue still busy: not yet.
    assert!(c.settle(false, 0).is_empty());
    assert_eq!(c.settle(true, 0), vec![11]);
    assert!(!c.is_playing());
    assert_eq!(c.current_stream_id(), 0);
    assert!(c.settle(true, 0).is_empty());
}

#[test]
fn switching_streams_keeps_only_new_audio_and_answers_waiters() {
    let mut c: PlaybackControl<u32> = PlaybackControl::new();
    c.start_chunk::<Vec<u8>>(1, Vec::new());
    c.after_push(30000, 24000, false);
    c.end_stream(21, 30000);
    assert!(c.is_switch(2));
    let drained = vec![chunk(1, 1), chunk(2, 2), QueuedCommand::EndStream(22), chunk(3, 2), chunk(4, 9), QueuedCommand::Abort];
    let start = c.start_chunk(2, drained);
    assert!(start.clear_ring);
    assert_eq!(start.signal, vec![21, 22]);
    assert_eq!(start.follow, vec![vec![2u8], vec![3u8]]);
    assert_eq!(start.dropped, 2);
    assert_eq!(c.current_stream_id(), 2);
    assert!(!c.is_playing());
}

#[test]
fn abort_answers_everyone_and_goes_idle() {
    let mut c: PlaybackControl<u32> = PlaybackControl::new();
    c.start_chunk::<Vec<u8>>(5, Vec::new());
    c.after_push(50000, 24000, false);
    c.end_stream(1, 50000);
    let drained = vec![chunk(0, 5), QueuedCommand::EndStream(2), chunk(0, 6)];
    let (signal, dropped) = c.abort(drained);
    assert_eq!(signal, vec![1, 2]);
    assert_eq!(dropped, 2);
    assert_eq!(c.current_stream_id(), 0);
    assert!(!c.is_playing());
    assert!(c.settle(true, 0).is_empty());
}

#[test]
fn output_config_choice() {
    let ranges = [
        OutputRange { channels: 6, is_i16: true, min_rate: 48000, max_rate: 48000 },
        OutputRange { channels: 2, is_i16: true, min_rate: 44100, max_rate: 96000 },
        OutputRange { channels: 1, is_i16: false, min_rate: 48000, max_rate: 48000 },
        OutputRange { channels: 1, is_i16: true, min_rate: 8000, max_rate: 44100 },
    ];
    // Stereo 16-bit at 48 kHz scores 10; mono float 100; mono 16-bit at 44.1 kHz 3900.
    assert_eq!(best_output_config(&ranges).unwrap(), (1, 48000));
    let mono = [OutputRange { channels: 1, is_i16: true, min_rate: 16000, max_rate: 192000 }];
    assert_eq!(best_output_config(&mono).unwrap(), (0, 48000));
    let none = [OutputRange { channels: 4, is_i16: true, min_rate: 48000, max_rate: 48000 }];
    match best_output_config(&none) {
        Err(AudioError::DeviceError(m)) => assert_eq!(m, "No matching output config found"),
        _ => panic!("expected a device error"),
    }
}

#[test]
fn output_callback_filling() {
    assert_eq!(callback_action(true, true), CallbackAction::Clear);
    assert_eq!(callback_action(false, false), CallbackAction::Silence);
    assert_eq!(callback_action(false, true), CallbackAction::Play);

    let mut out = [9i16; 7];
    let padded = fill_interleaved(&mut out, &[1, 2], 2);
    assert_eq!(out, [1, 1, 2, 2, 0, 0, 0]);
    assert_eq!(padded, 1);

    let mut mono = [5i16; 3];
    assert_eq!(fill_interleaved(&mut mono, &[4, 3, 2], 1), 0);
    assert_eq!(mono, [4, 3, 2]);
}

#[test]
fn shared_extremes() {
    let lo = AtomicU64::new(u64::MAX);
    let hi = AtomicU64::new(0);
    for v in [30u64, 10, 20] {
        atomic_min_u64(&lo, v);
        atomic_max_u64(&hi, v);
    }
    assert_eq!(lo.load(Ordering::Relaxed), 10);
    assert_eq!(hi.load(Ordering::Relaxed), 30);
}

#[test]
fn s16le_decoding_and_error_text() {
    assert_eq!(decode_s16le(&[0x01, 0x00, 0xff, 0xff, 0x00, 0x80]).unwrap(), vec![1, -1, i16::MIN]);
    match decode_s16le(&[1, 2, 3]) {
        Err(AudioError::WriteError(m)) => assert_eq!(m, "S16LE data length not aligned to 16-bit samples"),
        _ => panic!("expected a write error"),
    }
    assert_eq!(
        AudioError::DeviceError("gone".to_string()).to_string(),
        "Audio device error: gone"
    );
}
