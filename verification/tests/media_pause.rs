use audio::consumer_server::{
    confirmation_beep, detection_messages, firing_prediction, rejection_message, SegmentOutcome, SpeechSegments,
    SEGMENT_SILENCE_CHUNKS,
};
use audio::led_notify::{event_request, WW_DETECTED_EVENT};
use audio::mpv_controller::{PausePhase, PauseExchange, PauseStep, MAX_EVENT_SKIP};
use audio::protocol::ConsumerMessage;
use audio::spotify_controller::{SpotifyController, MAX_RESPONSE_BYTES};

#[test]
fn mpv_pause_exchange_pauses_a_playing_player() {
    let mut x = PauseExchange::new();
    assert_eq!(x.on_line(Some("{\"event\":\"property-change\"}\n")), PauseStep::ReadLine);
    assert_eq!(x.on_line(Some("{\"data\":false,\"request_id\":1,\"error\":\"success\"}\n")), PauseStep::SendPause);
    assert_eq!(x.current_phase(), PausePhase::Ack);
    assert_eq!(x.on_line(Some("{\"event\":\"pause\"}\n")), PauseStep::ReadLine);
    assert_eq!(x.on_line(Some("{\"request_id\":2,\"error\":\"success\"}\n")), PauseStep::Done(true));
    assert_eq!(x.on_line(None), PauseStep::Done(true));
}

#[test]
fn mpv_pause_exchange_leaves_a_paused_player() {
    let mut x = PauseExchange::new();
    assert_eq!(x.on_line(Some("{\"data\":true,\"request_id\":1}\n")), PauseStep::Done(false));
    let mut y = PauseExchange::new();
    assert_eq!(y.on_line(Some("")), PauseStep::Done(false));
    let mut z = PauseExchange::new();
    assert_eq!(z.on_line(Some("not json\n")), PauseStep::Done(false));
    let mut w = PauseExchange::new();
    assert_eq!(w.on_line(None), PauseStep::Done(false));
    // A missing `data` field counts as playing.
    let mut v = PauseExchange::new();
    assert_eq!(v.on_line(Some("{\"request_id\":1}\n")), PauseStep::SendPause);
    // Once the pause is sent, a failed acknowledgement still counts as paused.
    assert_eq!(v.on_line(Some("garbage\n")), PauseStep::Done(true));
}

#[test]
fn mpv_pause_exchange_gives_up_after_skipping() {
    let mut x = PauseExchange::new();
    for _ in 0..MAX_EVENT_SKIP - 1 {
        assert_eq!(x.on_line(Some("{\"event\":\"tick\"}")), PauseStep::ReadLine);
    }
    assert_eq!(x.on_line(Some("{\"event\":\"tick\"}")), PauseStep::Done(false));
}

#[test]
fn spotify_reply_collection() {
    let mut reply = Vec::new();
    assert!(!SpotifyController::collect_response(&mut reply, b"HTTP/1.1 200 OK\r\n"));
    assert!(SpotifyController::collect_response(&mut reply, b""));
    assert_eq!(reply, b"HTTP/1.1 200 OK\r\n".to_vec());
    let mut big = vec![b'x'; MAX_RESPONSE_BYTES - 10];
    assert!(SpotifyController::collect_response(&mut big, &[b'y'; 512]));
    assert_eq!(big.len(), MAX_RESPONSE_BYTES + 502);
    let c = SpotifyController::new("127.0.0.1:3001".to_string());
    assert_eq!(c.endpoint_address(), "127.0.0.1:3001");
}

#[test]
fn led_wake_word_request() {
    assert_eq!(WW_DETECTED_EVENT, "ww_detected");
    assert!(event_request("h:1", WW_DETECTED_EVENT).ends_with("\r\n\r\n{\"event\":\"ww_detected\"}"));
}

#[test]
fn wake_word_firing() {
    assert_eq!(firing_prediction(&[false, true, true], None, 3000), Some(1));
    assert_eq!(firing_prediction(&[false, false], None, 3000), None);
    assert_eq!(firing_prediction(&[true], Some(2999), 3000), None);
    assert_eq!(firing_prediction(&[true], Some(3000), 3000), Some(0));
    assert!(confirmation_beep(false, false));
    assert!(!confirmation_beep(true, false));
    assert!(!confirmation_beep(false, true));
}

#[test]
fn consumer_messages() {
    match rejection_message() {
        ConsumerMessage::Error { message } => assert_eq!(message, "Consumer already connected"),
        _ => panic!("expected an error message"),
    }
    let plain = detection_messages(vec![1, 2], true, 9, None);
    assert_eq!(plain.len(), 1);
    match &plain[0] {
        ConsumerMessage::Audio { data, speech_detected, timestamp } => {
            assert_eq!(data, &vec![1u8, 2]);
            assert!(*speech_detected);
            assert_eq!(*timestamp, 9);
        }
        _ => panic!("expected audio"),
    }
    let with_ww = detection_messages(vec![], false, 10, Some(("hey_mycroft".to_string(), 11, true)));
    assert_eq!(with_ww.len(), 2);
    match &with_ww[1] {
        ConsumerMessage::WakewordDetected { model, timestamp, spotify_was_paused } => {
            assert_eq!(model, "hey_mycroft");
            assert_eq!(*timestamp, 11);
            assert!(*spotify_was_paused);
        }
        _ => panic!("expected a wake word"),
    }
}

#[test]
fn speech_segments_end_after_silence() {
    let mut s = SpeechSegments::new();
    assert_eq!(s.observe(false, false), SegmentOutcome::Continues);
    assert_eq!(s.observe(true, false), SegmentOutcome::Continues);
    for _ in 0..SEGMENT_SILENCE_CHUNKS - 1 {
        assert_eq!(s.observe(false, false), SegmentOutcome::Continues);
    }
    assert_eq!(s.observe(false, false), SegmentOutcome::EndedWithoutWakeword);
    assert_eq!(s.observe(true, true), SegmentOutcome::Continues);
    for _ in 0..SEGMENT_SILENCE_CHUNKS - 1 {
        assert_eq!(s.observe(false, false), SegmentOutcome::Continues);
    }
    // Speech resets the silence run.
    assert_eq!(s.observe(true, false), SegmentOutcome::Continues);
    for _ in 0..SEGMENT_SILENCE_CHUNKS - 1 {
        assert_eq!(s.observe(false, false), SegmentOutcome::Continues);
    }
    assert_eq!(s.observe(false, false), SegmentOutcome::EndedWithWakeword);
}
