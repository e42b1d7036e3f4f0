use audio::error::EdgeError;
use audio::speech_producer::events::SpeechEvent;
use audio::stt::{AudioBatch, STTError, ServerMessage, SpeechReceive, TranscriptCollector, TranscriptStep, MAX_CHUNKS_PER_BATCH};

#[test]
fn batches_stop_at_the_limit() {
    let mut b = AudioBatch::new();
    let mut taken = 0;
    while b.wants_more() {
        if b.on_receive(SpeechReceive::Chunk(SpeechEvent::Speaking)) {
            taken += 1;
        }
    }
    assert_eq!(taken, MAX_CHUNKS_PER_BATCH);
    assert!(!b.checkpoint());
}

#[test]
fn batches_end_with_speech() {
    let mut b = AudioBatch::new();
    assert!(b.on_receive(SpeechReceive::Chunk(SpeechEvent::StartedSpeaking)));
    assert!(!b.on_receive(SpeechReceive::Lagged(3)));
    assert!(b.wants_more());
    assert!(!b.on_receive(SpeechReceive::Chunk(SpeechEvent::StoppedSpeaking)));
    assert!(!b.wants_more());
    assert!(b.checkpoint());

    let mut e = AudioBatch::new();
    assert!(!e.on_receive(SpeechReceive::Empty));
    assert!(!e.wants_more());
    assert!(!e.checkpoint());

    let mut c = AudioBatch::new();
    assert!(!c.on_receive(SpeechReceive::Closed));
    assert!(c.checkpoint());
}

#[test]
fn transcript_needs_the_final_checkpoint() {
    let mut t = TranscriptCollector::new();
    assert_eq!(t.on_message(5, ServerMessage::Update(Some("turn on".to_string()))), TranscriptStep::Continue);
    assert_eq!(t.on_message(5, ServerMessage::Update(Some(String::new()))), TranscriptStep::Continue);
    assert_eq!(t.on_message(5, ServerMessage::Unparsable), TranscriptStep::Continue);
    assert_eq!(t.on_message(5, ServerMessage::Update(Some("turn on the lights".to_string()))), TranscriptStep::Continue);
    assert_eq!(t.on_message(5, ServerMessage::FinalCheckpoint), TranscriptStep::Stop);
    assert_eq!(t.finish().unwrap(), "turn on the lights");

    let mut u = TranscriptCollector::new();
    assert_eq!(u.on_message(5, ServerMessage::Update(Some("hi".to_string()))), TranscriptStep::Continue);
    assert_eq!(u.on_message(5, ServerMessage::Closed), TranscriptStep::Stop);
    match u.finish() {
        Err(STTError::Streaming(m)) => assert_eq!(m, "No final checkpoint acknowledgment"),
        _ => panic!("expected a streaming error"),
    }

    let mut v = TranscriptCollector::new();
    assert_eq!(v.on_message(10001, ServerMessage::FinalCheckpoint), TranscriptStep::Stop);
    match v.finish() {
        Err(e) => {
            let edge: EdgeError = e.into();
            match edge {
                EdgeError::STT(STTError::Streaming(m)) => assert_eq!(m, "No response for 10 seconds"),
                _ => panic!("expected a streaming error"),
            }
        }
        Ok(_) => panic!("expected an error"),
    }
}
