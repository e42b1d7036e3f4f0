use audio::led_engine::{render_volume, LedEvent, LedState, LedStateMachine};
use audio::led_notify::event_request;
use audio::led_ring::{led_frame_payload, RgbColor, NUM_LEDS};

#[test]
fn led_frame_payload_layout() {
    let mut colors = [RgbColor::black(); NUM_LEDS];
    colors[0] = RgbColor::new(1, 2, 3);
    colors[11] = RgbColor::new(10, 20, 30);
    let p = led_frame_payload(&colors);
    assert_eq!(p.len(), 51);
    assert_eq!(&p[..7], &[20, 18, 48, 3, 2, 1, 0]);
    assert_eq!(&p[47..], &[30, 20, 10, 0]);
}

#[test]
fn overlays_return_to_base_state() {
    let mut m = LedStateMachine::new();
    assert_eq!(m.state(), LedState::Init);
    assert_eq!(m.handle_event(LedEvent::Wakeword), None);
    assert_eq!(m.state(), LedState::Listening);
    assert_eq!(m.handle_event(LedEvent::Ack), None);
    assert_eq!(m.handle_event(LedEvent::TimerAlert), None);
    assert_eq!(m.base_state(), LedState::Listening);
    // not yet expired
    assert!(!m.check_auto_transitions(3999));
    assert_eq!(m.state(), LedState::TimerAlert);
    assert!(m.check_auto_transitions(4000));
    assert_eq!(m.state(), LedState::Listening);
    // persistent states never expire
    assert!(!m.check_auto_transitions(1_000_000));
    m.handle_event(LedEvent::Error);
    assert!(!m.check_auto_transitions(1_000_000));
    assert_eq!(m.state(), LedState::Error);
}

#[test]
fn volume_events_set_leds_and_mixer() {
    let mut m = LedStateMachine::new();
    assert_eq!(m.volume_leds(), 6);
    assert_eq!(m.volume_percent(), 50);
    assert_eq!(m.handle_event(LedEvent::Volume { level: 75 }), Some(75));
    assert_eq!(m.volume_leds(), 9);
    assert_eq!(m.handle_event(LedEvent::Volume { level: 250 }), Some(100));
    assert_eq!(m.volume_leds(), 12);
    assert_eq!(m.handle_event(LedEvent::VolumeUp), Some(100));
    assert_eq!(m.volume_leds(), 12);
    assert_eq!(m.handle_event(LedEvent::VolumeDown), Some(92));
    assert_eq!(m.volume_leds(), 11);
    assert_eq!(m.handle_event(LedEvent::Volume { level: 4 }), Some(4));
    assert_eq!(m.volume_leds(), 0);
    assert_eq!(m.handle_event(LedEvent::VolumeDown), Some(0));
    assert_eq!(m.volume_leds(), 0);
    assert_eq!(m.state(), LedState::Volume);
    assert!(m.check_auto_transitions(2000));
    assert_eq!(m.state(), LedState::Init);
}

#[test]
fn tick_intervals() {
    assert_eq!(LedStateMachine::tick_interval_ms(LedState::Idle), 100);
    assert_eq!(LedStateMachine::tick_interval_ms(LedState::Volume), 100);
    assert_eq!(LedStateMachine::tick_interval_ms(LedState::Processing), 33);
    assert!(LedStateMachine::is_animated_state(LedState::TimerAlert));
}

#[test]
fn render_volume_lights_first_leds() {
    let f = render_volume(3);
    assert_eq!(f[0], RgbColor::new(0, 200, 0));
    assert_eq!(f[2], RgbColor::new(0, 200, 0));
    assert_eq!(f[3], RgbColor::black());
    let f = render_volume(200);
    assert!(f.iter().all(|c| *c == RgbColor::new(0, 200, 0)));
}

#[test]
fn led_event_request_text() {
    assert_eq!(
        event_request("127.0.0.1:3000", "ww_detected"),
        "POST /api/event HTTP/1.1\r\nHost: 127.0.0.1:3000\r\nContent-Type: application/json\r\nContent-Length: 23\r\nConnection: close\r\n\r\n{\"event\":\"ww_detected\"}"
    );
}
