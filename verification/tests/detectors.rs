use audio::llm::tools::calendar::{current_date_response, current_time_response};
use audio::llm::tools::ToolResult;
use audio::spotify_control::{
    first_name_with_prefix, join_metadata_strings, pause_needed, CONTROLS_PREFIX, MPRIS_SPOTIFYD_PREFIX,
};
use audio::vad::SpeechHysteresis;

#[test]
fn speech_hysteresis_starts_and_stops() {
    let mut h = SpeechHysteresis::new(2, 3);
    // A single voiced chunk is processed but does not start speech.
    assert!(h.should_process(true));
    assert!(!h.is_speech_active());
    assert!(!h.should_process(false));
    assert!(h.should_process(true));
    assert!(!h.is_speech_active());
    // Two voiced chunks in a row start it.
    assert!(h.should_process(true));
    assert!(h.is_speech_active());
    // Two silent chunks keep it; the third stops it.
    assert!(h.should_process(false));
    assert!(h.should_process(false));
    assert!(!h.should_process(false));
    assert!(!h.is_speech_active());
    h.should_process(true);
    h.should_process(true);
    assert!(h.is_speech_active());
    h.reset();
    assert!(!h.is_speech_active());
}

#[test]
fn spotifyd_bus_names() {
    let names = vec![
        "org.freedesktop.DBus".to_string(),
        "org.mpris.MediaPlayer2.spotifyd.instance42".to_string(),
        "rs.spotifyd.instance42".to_string(),
    ];
    assert_eq!(first_name_with_prefix(&names, CONTROLS_PREFIX), Some(2));
    assert_eq!(first_name_with_prefix(&names, MPRIS_SPOTIFYD_PREFIX), Some(1));
    assert_eq!(first_name_with_prefix(&names[..1], CONTROLS_PREFIX), None);
    assert!(pause_needed("Playing"));
    assert!(!pause_needed("Paused"));
    assert_eq!(
        join_metadata_strings(&["Daft Punk".to_string(), "Pharrell".to_string()]),
        Some("Daft Punk, Pharrell".to_string())
    );
    assert_eq!(join_metadata_strings(&["Solo".to_string()]), Some("Solo".to_string()));
    assert_eq!(join_metadata_strings(&[]), None);
}

#[test]
fn calendar_answers() {
    match current_time_response("09:05 PM") {
        ToolResult::Response(m) => assert_eq!(m, "Current time: 9:05 PM"),
        _ => panic!("expected a response"),
    }
    match current_date_response("Monday, March 03, 2025") {
        ToolResult::Response(m) => assert_eq!(m, "Current date: Monday, March 03, 2025"),
        _ => panic!("expected a response"),
    }
}

use audio::wakeword_utils::{embedding_windows, trim_front, StreamingSamples, MAX_RAW_BUFFER_SAMPLES};

#[test]
fn streaming_samples_account_for_chunks() {
    let mut s = StreamingSamples::new();
    let a: Vec<i16> = (0..1000).map(|k| k as i16).collect();
    // Not a whole chunk yet: everything is buffered and accumulated.
    assert_eq!(s.push(&a), (1000, None));
    assert_eq!(s.raw_samples().len(), 1000);
    // 1000 + 1000 = 2000: one chunk is due, 720 samples wait.
    assert_eq!(s.push(&a), (1280, Some(0)));
    assert_eq!(s.raw_samples().len(), 1280);
    // 720 waiting + 2000 new, nothing accumulated: two chunks due, 160 wait.
    let b: Vec<i16> = vec![7; 2000];
    let (n, start) = s.push(&b);
    assert_eq!(n, 2560);
    assert_eq!(s.raw_samples().len(), 3840);
    assert_eq!(start, Some(3840 - 2560 - 480));
    assert_eq!(s.push(&[]), (160, None));
}

#[test]
fn streaming_samples_keep_ten_seconds() {
    let mut s = StreamingSamples::new();
    let big = vec![1i16; 1280 * 130];
    let (n, start) = s.push(&big);
    assert_eq!(n, 1280 * 130);
    assert_eq!(s.raw_samples().len(), MAX_RAW_BUFFER_SAMPLES);
    assert_eq!(start, Some(0));
}

#[test]
fn embedding_windows_end_at_the_newest_frames() {
    assert!(embedding_windows(75, 1).is_empty());
    assert_eq!(embedding_windows(100, 1), vec![(24, 100)]);
    assert_eq!(embedding_windows(100, 3), vec![(8, 84), (16, 92), (24, 100)]);
    // Windows that would start before the first frame are left out.
    assert_eq!(embedding_windows(80, 2), vec![(4, 80)]);
    let mut frames: Vec<u32> = (0..1000).collect();
    trim_front(&mut frames, 970);
    assert_eq!(frames.len(), 970);
    assert_eq!(frames[0], 30);
}

use audio::speech_producer::events::SpeechEvent;
use audio::speech_producer::{SpeechTracker, TRAILING_FRAME_COUNT};

#[test]
fn speech_events_trail_after_voice() {
    let mut t = SpeechTracker::new();
    assert_eq!(t.on_chunk(false), None);
    assert_eq!(t.on_chunk(true), Some(SpeechEvent::StartedSpeaking));
    assert_eq!(t.on_chunk(true), Some(SpeechEvent::Speaking));
    for _ in 0..TRAILING_FRAME_COUNT {
        assert_eq!(t.on_chunk(false), Some(SpeechEvent::Speaking));
    }
    assert_eq!(t.on_chunk(false), Some(SpeechEvent::StoppedSpeaking));
    assert_eq!(t.on_chunk(false), None);
    assert_eq!(t.on_chunk(true), Some(SpeechEvent::StartedSpeaking));
    // A voiced chunk during the trail resets it.
    assert_eq!(t.on_chunk(false), Some(SpeechEvent::Speaking));
    assert_eq!(t.on_chunk(true), Some(SpeechEvent::Speaking));
    for _ in 0..TRAILING_FRAME_COUNT {
        assert_eq!(t.on_chunk(false), Some(SpeechEvent::Speaking));
    }
    assert_eq!(t.on_chunk(false), Some(SpeechEvent::StoppedSpeaking));
}

use audio::wakeword_utils::{feature_range, generate_warmup_noise};

#[test]
fn warmup_noise_is_deterministic_and_bounded() {
    let a = generate_warmup_noise(1000);
    assert_eq!(a.len(), 1000);
    assert!(a.iter().all(|&v| (-1000..=1000).contains(&v)));
    assert_eq!(a, generate_warmup_noise(1000));
    let mut state: u64 = 42;
    state = state.wrapping_mul(6364136223846793005).wrapping_add(1442695040888963407);
    assert_eq!(a[0], ((state >> 33) as i32 % 2001 - 1000) as i16);
    assert!(generate_warmup_noise(0).is_empty());
}

#[test]
fn feature_ranges_index_like_slices() {
    assert_eq!(feature_range(0, 16, -1), (0, 0));
    assert_eq!(feature_range(120, 16, -1), (104, 120));
    assert_eq!(feature_range(10, 16, -1), (0, 10));
    // buffer[-17:-1]
    assert_eq!(feature_range(120, 16, -17), (103, 119));
    // buffer[-16:] (the end offset is 0)
    assert_eq!(feature_range(120, 16, -16), (104, 120));
    // buffer[-10:] capped at the end
    assert_eq!(feature_range(120, 16, -10), (110, 120));
    assert_eq!(feature_range(120, 16, 5), (5, 21));
    assert_eq!(feature_range(120, 16, 200), (120, 120));
    assert_eq!(feature_range(20, 16, -40), (0, 0));
}
