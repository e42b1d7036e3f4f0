use audio::consumer_server::{wakeword_debounced, ConsumerServerError};
use audio::llm::tools::quick_actions::{future_time_answer, strip_hour_zero, time_answer};
use audio::mpv_controller::{MpvController, ResponseLine, DEFAULT_SOCKET_PATH};
use audio::pipeline::end_of_speech_reached;
use audio::producer_server::{PlayDecision, PlaybackSession, ProducerServerConfig};
use audio::protocol::ProtocolError;
use audio::speech_producer::events::SpeechEvent;
use audio::spotify_control::{track_label, Status};
use audio::tts::{AudioFormat, ElevenLabsStreamingTTS, Voice};

#[test]
fn playback_session_drops_interrupted_streams() {
    let mut s = PlaybackSession::new();
    assert_eq!(s.on_play(1), PlayDecision::StartStream);
    assert_eq!(s.on_play(1), PlayDecision::Continue);
    assert!(s.on_barge_in());
    assert_eq!(s.current_stream_id(), 0);
    assert_eq!(s.interrupted_stream_id(), 1);
    assert!(!s.on_barge_in());
    assert_eq!(s.on_play(1), PlayDecision::Drop);
    assert_eq!(s.on_play(2), PlayDecision::StartStream);
    assert!(s.ends_current_stream(2));
    assert!(!s.ends_current_stream(1));
    s.completion_started();
    assert!(s.awaiting_completion());
    s.playback_finished();
    assert!(!s.awaiting_completion());
    assert_eq!(s.current_stream_id(), 0);
    assert_eq!(s.on_play(1), PlayDecision::Drop);
    assert_eq!(ProducerServerConfig::default().bind_address, "127.0.0.1:8081");
}

#[test]
fn debounce_and_end_of_speech() {
    assert!(!wakeword_debounced(None, 3000));
    assert!(wakeword_debounced(Some(2999), 3000));
    assert!(!wakeword_debounced(Some(3000), 3000));
    assert!(!end_of_speech_reached(None, 1000));
    assert!(!end_of_speech_reached(Some(1000), 1000));
    assert!(end_of_speech_reached(Some(1001), 1000));
    let e: ConsumerServerError = ProtocolError::InvalidMessageType(1).into();
    assert!(matches!(e, ConsumerServerError::Protocol(ProtocolError::InvalidMessageType(1))));
}

#[test]
fn mpv_reply_lines() {
    assert_eq!(MpvController::classify_response_line("", 1), ResponseLine::Closed);
    assert_eq!(MpvController::classify_response_line("not json\n", 1), ResponseLine::Malformed);
    assert_eq!(
        MpvController::classify_response_line("{\"data\":false,\"request_id\":1,\"error\":\"success\"}\n", 1),
        ResponseLine::Matching
    );
    assert_eq!(
        MpvController::classify_response_line("{\"event\":\"pause\"}\n", 1),
        ResponseLine::Unrelated
    );
    assert!(MpvController::already_paused("{\"data\":true,\"request_id\":1}"));
    assert!(!MpvController::already_paused("{\"data\":false,\"request_id\":1}"));
    assert!(!MpvController::already_paused("{\"request_id\":1}"));
    let (p, from_env) = MpvController::choose_socket_path(Some(String::new()));
    assert_eq!(p, DEFAULT_SOCKET_PATH);
    assert!(!from_env);
    let (p, from_env) = MpvController::choose_socket_path(Some("/tmp/x.sock".to_string()));
    assert_eq!(p, "/tmp/x.sock");
    assert!(from_env);
    let c = MpvController::from_socket_path(p);
    assert_eq!(c.socket_path(), "/tmp/x.sock");
}

#[test]
fn time_tool_answers() {
    assert_eq!(strip_hour_zero("09:05 AM"), "9:05 AM");
    assert_eq!(strip_hour_zero("10:05 AM"), "10:05 AM");
    assert_eq!(time_answer("9:05 AM"), "It's 9:05 AM");
    assert_eq!(future_time_answer(2, 30, "11:35 AM"), "In 2 hours and 30 minutes, it will be 11:35 AM");
    assert_eq!(future_time_answer(2, 0, "11:05 AM"), "In 2 hours, it will be 11:05 AM");
    assert_eq!(future_time_answer(0, 15, "9:20 AM"), "In 15 minutes, it will be 9:20 AM");
    assert_eq!(future_time_answer(0, -3, "9:20 AM"), "");
}

#[test]
fn tts_presets_and_formats() {
    assert_eq!(Voice::rachel(), "21m00Tcm4TlvDq8ikWAM");
    assert_eq!(Voice::daniel(), "onwK4e9ZLuTAKqWW03F9");
    assert_eq!(AudioFormat::Pcm16000.to_elevenlabs_format(), "pcm_16000");
    assert_eq!(AudioFormat::Mp3_44100_128.to_elevenlabs_format(), "mp3_44100_128");
    let t = ElevenLabsStreamingTTS::new("key".to_string());
    assert_eq!(t.api_key(), "key");
    assert_eq!(t.base_url(), "wss://api.elevenlabs.io/v1");
}

#[test]
fn speech_events() {
    assert!(SpeechEvent::StartedSpeaking.should_process());
    assert!(SpeechEvent::Speaking.should_process());
    assert!(!SpeechEvent::StoppedSpeaking.should_process());
    assert!(SpeechEvent::StartedSpeaking.is_speech_start());
    assert!(SpeechEvent::StoppedSpeaking.is_speech_end());
    assert!(!SpeechEvent::Speaking.is_speech_end());
}

#[test]
fn spotify_status_snapshots() {
    assert_eq!(
        track_label(Some("A".to_string()), Some("T".to_string())),
        Some("A - T".to_string())
    );
    assert_eq!(track_label(None, Some("T".to_string())), Some("T".to_string()));
    assert_eq!(track_label(Some("A".to_string()), None), None);
    let s = Status::unavailable();
    assert!(!s.available && !s.active);
    let s = Status::inactive();
    assert!(s.available && !s.active && s.volume.is_none());
}
