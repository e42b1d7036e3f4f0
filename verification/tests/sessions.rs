use audio::pipeline::{DetectionGate, MEL_OUTPUTS_NEEDED};
use audio::llm::prompts::PromptBuilder;
use audio::speech_producer::events::SpeechEvent;
use audio::llm::tools::{create_default_registry, EMPTY_SCHEMA, TELL_USER_SCHEMA};
use audio::resampler::SimpleResampler;
use audio::stt::{classify_server_text, streaming_url, ServerMessage, STREAMING_URL};
use audio::text::contains_str;
use audio::tts::{synthesis_url, tts_step, TtsAction, TtsMessage};

#[test]
fn server_text_classification() {
    assert!(matches!(classify_server_text("not json", None), ServerMessage::Unparsable));
    assert!(matches!(
        classify_server_text("{\"checkpoint_id\":\"final\"}", Some(None)),
        ServerMessage::FinalCheckpoint
    ));
    assert!(matches!(
        classify_server_text("{\"text\":\"hello there\"}", Some(Some("hello there".to_string()))),
        ServerMessage::Update(Some(ref t)) if t == "hello there"
    ));
    assert!(matches!(classify_server_text("{\"checkpoint_id\":\"partial\"}", None), ServerMessage::Other));
    assert!(matches!(classify_server_text("{\"checkpoint_id\":7}", Some(None)), ServerMessage::Update(None)));
}

#[test]
fn streaming_url_query() {
    let url = streaming_url(Some("en"), Some("0"), Some("Transcribe the following audio accurately."), "key").unwrap();
    assert_eq!(
        url,
        format!(
            "{}?language=en&temperature=0&prompt=Transcribe+the+following+audio+accurately.&response_format=verbose_json&Authorization=key",
            STREAMING_URL
        )
    );
    let url = streaming_url(None, None, None, "a b&c").unwrap();
    assert_eq!(url, format!("{}?response_format=verbose_json&Authorization=a+b%26c", STREAMING_URL));
}

#[test]
fn synthesis_steps() {
    assert!(matches!(tts_step(TtsMessage::Binary(vec![1, 2])), TtsAction::Play(ref d) if d == &vec![1u8, 2]));
    assert!(matches!(
        tts_step(TtsMessage::Text("{\"error\":\"quota\"}".to_string())),
        TtsAction::ApiError(ref m) if m == "{\"error\":\"quota\"}"
    ));
    assert!(matches!(
        tts_step(TtsMessage::Text("{\"audio\":\"AAEC\"}".to_string())),
        TtsAction::Play(ref d) if d == &vec![0u8, 1, 2]
    ));
    assert!(matches!(tts_step(TtsMessage::Text("{\"audio\":null}".to_string())), TtsAction::Continue));
    assert!(matches!(tts_step(TtsMessage::Text("{\"audio\":\"A\"}".to_string())), TtsAction::InvalidAudio));
    assert!(matches!(
        tts_step(TtsMessage::Text("{\"audio\":\"aGk=\"}".to_string())),
        TtsAction::Play(ref d) if d == &b"hi".to_vec()
    ));
    assert!(matches!(tts_step(TtsMessage::Text("{\"isFinal\":\"done\"}".to_string())), TtsAction::Done));
    assert!(matches!(tts_step(TtsMessage::Text("{\"alignment\":1}".to_string())), TtsAction::Continue));
    assert!(matches!(tts_step(TtsMessage::Cancelled), TtsAction::StopCancelled));
    assert!(matches!(tts_step(TtsMessage::Close), TtsAction::Done));
    assert!(matches!(tts_step(TtsMessage::Ended), TtsAction::Done));
    assert!(matches!(tts_step(TtsMessage::Control), TtsAction::Continue));
    assert!(matches!(tts_step(TtsMessage::Failed("reset".to_string())), TtsAction::WebSocketError(ref m) if m == "reset"));
}

#[test]
fn synthesis_url_text() {
    assert_eq!(
        synthesis_url("21m00Tcm4TlvDq8ikWAM", "eleven_multilingual_v2"),
        "wss://api.elevenlabs.io/v1/text-to-speech/21m00Tcm4TlvDq8ikWAM/stream-input?model_id=eleven_multilingual_v2&output_format=pcm_16000"
    );
}

#[test]
fn substring_search() {
    assert!(contains_str("an error occurred", "error"));
    assert!(contains_str("abc", ""));
    assert!(!contains_str("ab", "abc"));
    assert!(contains_str("héllo wörld", "wö"));
    assert!(!contains_str("\"audi\"", "\"audio\""));
}

#[test]
fn expected_output_size_large_even_count() {
    let r = SimpleResampler::new().unwrap();
    assert_eq!(r.expected_output_size(1usize << 52), 3usize << 52);
}

#[test]
fn default_tool_schemas() {
    let registry = create_default_registry();
    let tools = registry.get_tools();
    let empty: serde_json::Value = serde_json::from_str(EMPTY_SCHEMA).unwrap();
    let tell: serde_json::Value = serde_json::from_str(TELL_USER_SCHEMA).unwrap();
    assert_eq!(tools[0].parameters, empty);
    assert_eq!(tools[1].parameters, empty);
    assert_eq!(tools[2].parameters, tell);
    assert_eq!(tools[2].parameters["properties"]["message"]["type"], "string");
}

#[test]
fn test_should_process() {
    let started = SpeechEvent::StartedSpeaking;
    assert!(started.should_process());
    assert!(started.is_speech_start());
    assert!(!started.is_speech_end());

    let speaking = SpeechEvent::Speaking;
    assert!(speaking.should_process());
    assert!(!speaking.is_speech_start());
    assert!(!speaking.is_speech_end());

    let stopped = SpeechEvent::StoppedSpeaking;
    assert!(!stopped.should_process());
    assert!(!stopped.is_speech_start());
    assert!(stopped.is_speech_end());
}

#[test]
fn detection_gate_warm_up_and_latch() {
    let mut gate = DetectionGate::new(16);
    for _ in 0..MEL_OUTPUTS_NEEDED - 1 {
        assert!(!gate.on_mel_output());
    }
    assert!(gate.on_mel_output());
    assert!(gate.on_mel_output());
    for _ in 0..15 {
        assert!(!gate.on_embedding());
    }
    assert!(gate.on_embedding());
    assert!(gate.on_embedding());

    assert!(!gate.on_confidence(false, true));
    assert!(gate.on_confidence(true, false));
    // Ignored until the confidence drops below half the threshold.
    assert!(!gate.on_confidence(true, false));
    assert!(!gate.on_confidence(false, false));
    assert!(!gate.on_confidence(false, true));
    assert!(gate.on_confidence(true, false));
    gate.reset();
    assert!(gate.on_confidence(true, false));
}

#[test]
fn prompt_build_after_add() {
    assert_eq!(PromptBuilder::new().add_context("c").build(), "Context: c");
    assert_eq!(
        PromptBuilder::new().add_system_role("s").add_context("").build(),
        "System: s\n\nContext: "
    );
}
