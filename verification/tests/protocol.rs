use audio::protocol::{
    decode_consumer_header, decode_producer_header,
    ConsumerConnection, ConsumerMessage, ConsumerMessageType, ProducerConnection, ProducerMessage,
    ProducerMessageType, ProtocolError,
};
use std::io::Cursor;

#[test]
fn test_consumer_message_binary_serialization() {
    let msg = ConsumerMessage::Error {
        message: "Test error".to_string(),
    };
    let bytes = msg.to_bytes().unwrap();

    // Binary format: [message_type: u8][payload_len: u32][payload_data]
    assert_eq!(bytes[0], ConsumerMessageType::Error.as_byte());

    // Test round-trip
    let mut cursor = Cursor::new(bytes);
    let mut connection = ConsumerConnection::new(cursor);
    let parsed_msg = connection.read_message().unwrap();

    match parsed_msg {
        ConsumerMessage::Error { message } => {
            assert_eq!(message, "Test error");
        }
        _ => panic!("Expected Error message"),
    }
}

#[test]
fn test_wakeword_detected_binary() {
    let msg = ConsumerMessage::WakewordDetected {
        model: "hey-jarvis".to_string(),
        timestamp: 1234567890,
        spotify_was_paused: true,
    };
    let bytes = msg.to_bytes().unwrap();

    // Should start with WakewordDetected message type
    assert_eq!(bytes[0], ConsumerMessageType::WakewordDetected.as_byte());

    // Test round-trip
    let mut cursor = Cursor::new(bytes);
    let mut connection = ConsumerConnection::new(cursor);
    let parsed_msg = connection.read_message().unwrap();

    match parsed_msg {
        ConsumerMessage::WakewordDetected {
            model,
            timestamp,
            spotify_was_paused,
        } => {
            assert_eq!(model, "hey-jarvis");
            assert_eq!(timestamp, 1234567890);
            assert_eq!(spotify_was_paused, true);
        }
        _ => panic!("Expected WakewordDetected message"),
    }
}

#[test]
fn test_audio_message_binary() {
    let audio_data = vec![1, 2, 3, 4, 5, 6];
    let msg = ConsumerMessage::Audio {
        data: audio_data.clone(),
        speech_detected: true,
        timestamp: 1234567890,
    };
    let bytes = msg.to_bytes().unwrap();

    // Should start with Audio message type
    assert_eq!(bytes[0], ConsumerMessageType::Audio.as_byte());

    // Test round-trip
    let mut cursor = Cursor::new(bytes);
    let mut connection = ConsumerConnection::new(cursor);
    let parsed_msg = connection.read_message().unwrap();

    match parsed_msg {
        ConsumerMessage::Audio {
            data,
            speech_detected,
            timestamp,
        } => {
            assert_eq!(data, audio_data);
            assert_eq!(speech_detected, true);
            assert_eq!(timestamp, 1234567890);
        }
        _ => panic!("Expected Audio message"),
    }
}

#[test]
fn test_producer_message_binary() {
    let audio_data = vec![7, 8, 9, 10];
    let msg = ProducerMessage::Play {
        data: audio_data.clone(),
    };
    let bytes = msg.to_bytes().unwrap();

    // Should start with Play message type
    assert_eq!(bytes[0], ProducerMessageType::Play.as_byte());

    // Test round-trip
    let mut cursor = Cursor::new(bytes);
    let mut connection = ProducerConnection::new(cursor);
    let parsed_msg = connection.read_message().unwrap();

    match parsed_msg {
        ProducerMessage::Play { data } => {
            assert_eq!(data, audio_data);
        }
        _ => panic!("Expected Play message"),
    }
}

#[test]
fn test_producer_stop_binary() {
    let msg = ProducerMessage::Stop {
        timestamp: 9876543210,
    };
    let bytes = msg.to_bytes().unwrap();

    // Should start with Stop message type
    assert_eq!(bytes[0], ProducerMessageType::Stop.as_byte());

    // Test round-trip
    let mut cursor = Cursor::new(bytes);
    let mut connection = ProducerConnection::new(cursor);
    let parsed_msg = connection.read_message().unwrap();

    match parsed_msg {
        ProducerMessage::Stop { timestamp } => {
            assert_eq!(timestamp, 9876543210);
        }
        _ => panic!("Expected Stop message"),
    }
}

#[test]
fn test_message_type_conversions() {
    // Test ConsumerMessageType conversions
    assert_eq!(
        ConsumerMessageType::try_from(0x11).unwrap(),
        ConsumerMessageType::Error
    );
    assert_eq!(
        ConsumerMessageType::try_from(0x12).unwrap(),
        ConsumerMessageType::Audio
    );
    assert_eq!(
        ConsumerMessageType::try_from(0x15).unwrap(),
        ConsumerMessageType::WakewordDetected
    );
    assert!(ConsumerMessageType::try_from(0xFF).is_err());

    // Test ProducerMessageType conversions
    assert_eq!(
        ProducerMessageType::try_from(0x20).unwrap(),
        ProducerMessageType::Play
    );
    assert_eq!(
        ProducerMessageType::try_from(0x21).unwrap(),
        ProducerMessageType::Stop
    );
    assert_eq!(
        ProducerMessageType::try_from(0x22).unwrap(),
        ProducerMessageType::EndOfStream
    );
    assert_eq!(
        ProducerMessageType::try_from(0x31).unwrap(),
        ProducerMessageType::Error
    );
    assert_eq!(
        ProducerMessageType::try_from(0x32).unwrap(),
        ProducerMessageType::PlaybackComplete
    );
    assert!(ProducerMessageType::try_from(0xFF).is_err());
}

#[test]
fn test_producer_end_of_stream_binary() {
    let msg = ProducerMessage::EndOfStream {
        timestamp: 1234567890,
    };
    let bytes = msg.to_bytes().unwrap();

    // Should start with EndOfStream message type
    assert_eq!(bytes[0], ProducerMessageType::EndOfStream.as_byte());

    // Test round-trip
    let mut cursor = Cursor::new(bytes);
    let mut connection = ProducerConnection::new(cursor);
    let parsed_msg = connection.read_message().unwrap();

    match parsed_msg {
        ProducerMessage::EndOfStream { timestamp } => {
            assert_eq!(timestamp, 1234567890);
        }
        _ => panic!("Expected EndOfStream message"),
    }
}

#[test]
fn test_producer_playback_complete_binary() {
    let msg = ProducerMessage::PlaybackComplete {
        timestamp: 9876543210,
    };
    let bytes = msg.to_bytes().unwrap();

    // Should start with PlaybackComplete message type
    assert_eq!(bytes[0], ProducerMessageType::PlaybackComplete.as_byte());

    // Test round-trip
    let mut cursor = Cursor::new(bytes);
    let mut connection = ProducerConnection::new(cursor);
    let parsed_msg = connection.read_message().unwrap();

    match parsed_msg {
        ProducerMessage::PlaybackComplete { timestamp } => {
            assert_eq!(timestamp, 9876543210);
        }
        _ => panic!("Expected PlaybackComplete message"),
    }
}

#[test]
fn frame_layout_is_type_length_payload() {
    let msg = ProducerMessage::Stop { timestamp: 0x0102030405060708 };
    let bytes = msg.to_bytes().unwrap();
    assert_eq!(bytes, vec![0x21, 8, 0, 0, 0, 8, 7, 6, 5, 4, 3, 2, 1]);
    let msg = ConsumerMessage::Audio { data: vec![9], speech_detected: false, timestamp: 1 };
    let bytes = msg.to_bytes().unwrap();
    assert_eq!(bytes, vec![0x12, 14, 0, 0, 0, 1, 0, 0, 0, 0, 0, 0, 0, 0, 1, 0, 0, 0, 9]);
}

#[test]
fn from_bytes_errors() {
    assert!(matches!(
        ConsumerMessage::from_bytes(ConsumerMessageType::Audio, &[0u8; 12]),
        Err(ProtocolError::InvalidPayloadSize(12))
    ));
    // declared data length 5, only 1 byte present
    let mut p = vec![0u8; 9];
    p.extend_from_slice(&[5, 0, 0, 0, 1]);
    assert!(matches!(
        ConsumerMessage::from_bytes(ConsumerMessageType::WakewordDetected, &p),
        Err(ProtocolError::InvalidPayloadSize(14))
    ));
    assert!(matches!(
        ConsumerMessage::from_bytes(ConsumerMessageType::Error, &[0xff, 0xfe]),
        Err(ProtocolError::Utf8(_))
    ));
    assert!(matches!(
        ProducerMessage::from_bytes(ProducerMessageType::Stop, &[1, 2, 3]),
        Err(ProtocolError::InvalidPayloadSize(3))
    ));
    assert!(matches!(
        ProducerMessage::from_bytes(ProducerMessageType::Error, &[0xc0]),
        Err(ProtocolError::Utf8(_))
    ));
}

#[test]
fn read_message_errors() {
    // unknown type byte
    let mut c = ConsumerConnection::new(Cursor::new(vec![0x99u8, 0, 0, 0, 0]));
    assert!(matches!(c.read_message(), Err(ProtocolError::InvalidMessageType(0x99))));
    // oversized payload is refused before it is read
    let mut c = ProducerConnection::new(Cursor::new(vec![0x20u8, 1, 0, 0xA0, 0]));
    assert!(matches!(c.read_message(), Err(ProtocolError::InvalidPayloadSize(0x00A0_0001))));
    // short stream
    let mut c = ProducerConnection::new(Cursor::new(vec![0x20u8, 4, 0, 0, 0, 1]));
    assert!(matches!(c.read_message(), Err(ProtocolError::Io(_))));
    let mut c = ProducerConnection::new(Cursor::new(Vec::<u8>::new()));
    assert!(matches!(c.read_message(), Err(ProtocolError::Io(_))));
}

#[test]
fn consecutive_frames_read_back_in_order() {
    let mut buf = Vec::new();
    buf.extend(ProducerMessage::Play { data: vec![1, 2, 3] }.to_bytes().unwrap());
    buf.extend(ProducerMessage::Error { message: "héllo".to_string() }.to_bytes().unwrap());
    buf.extend(ProducerMessage::Play { data: vec![] }.to_bytes().unwrap());
    let mut c = ProducerConnection::new(Cursor::new(buf));
    assert!(matches!(c.read_message().unwrap(), ProducerMessage::Play { data } if data == vec![1, 2, 3]));
    assert!(matches!(c.read_message().unwrap(), ProducerMessage::Error { message } if message == "héllo"));
    assert!(matches!(c.read_message().unwrap(), ProducerMessage::Play { data } if data.is_empty()));
}

#[test]
fn write_message_then_read_message() {
    let mut c = ConsumerConnection::new(Cursor::new(Vec::<u8>::new()));
    c.write_message(&ConsumerMessage::WakewordDetected {
        model: "hey-jarvis".to_string(),
        timestamp: 7,
        spotify_was_paused: false,
    })
    .unwrap();
    let written = ConsumerMessage::WakewordDetected {
        model: "hey-jarvis".to_string(),
        timestamp: 7,
        spotify_was_paused: false,
    }
    .to_bytes()
    .unwrap();
    let mut c = ConsumerConnection::new(Cursor::new(written));
    match c.read_message().unwrap() {
        ConsumerMessage::WakewordDetected { model, timestamp, spotify_was_paused } => {
            assert_eq!(model, "hey-jarvis");
            assert_eq!(timestamp, 7);
            assert!(!spotify_was_paused);
        }
        _ => panic!("Expected WakewordDetected message"),
    }
}

#[test]
fn current_timestamps_are_after_2020() {
    assert!(ConsumerMessage::current_timestamp() > 1_577_836_800_000);
    assert!(ProducerMessage::current_timestamp() > 1_577_836_800_000);
}

#[test]
fn write_message_hands_the_frame_to_the_stream() {
    let msg = ConsumerMessage::WakewordDetected {
        model: "hey-jarvis".to_string(),
        timestamp: 7,
        spotify_was_paused: true,
    };
    let mut buf: Vec<u8> = Vec::new();
    {
        let mut c = ConsumerConnection::new(Cursor::new(&mut buf));
        c.write_message(&msg).unwrap();
        c.write_message(&msg).unwrap();
    }
    let frame = msg.to_bytes().unwrap();
    let mut twice = frame.clone();
    twice.extend_from_slice(&frame);
    assert_eq!(buf, twice);

    let stop = ProducerMessage::Stop { timestamp: 42 };
    let mut buf: Vec<u8> = Vec::new();
    {
        let mut c = ProducerConnection::new(Cursor::new(&mut buf));
        c.write_message(&stop).unwrap();
    }
    assert_eq!(buf, vec![0x21u8, 8, 0, 0, 0, 42, 0, 0, 0, 0, 0, 0, 0]);
}

#[test]
fn header_decoding() {
    assert!(matches!(
        decode_consumer_header(0x12, &[6, 0, 0, 0]),
        Ok((ConsumerMessageType::Audio, 6))
    ));
    assert!(matches!(decode_consumer_header(0x13, &[6, 0, 0, 0]), Err(ProtocolError::InvalidMessageType(0x13))));
    assert!(matches!(
        decode_consumer_header(0x11, &[1, 0, 0xA0, 0]),
        Err(ProtocolError::InvalidPayloadSize(0x00A0_0001))
    ));
    assert!(matches!(
        decode_consumer_header(0x11, &[0, 0, 0xA0, 0]),
        Ok((ConsumerMessageType::Error, 0x00A0_0000))
    ));
    assert!(matches!(
        decode_producer_header(0x21, &[8, 0, 0, 0]),
        Ok((ProducerMessageType::Stop, 8))
    ));
    assert!(matches!(decode_producer_header(0x10, &[8, 0, 0, 0]), Err(ProtocolError::InvalidMessageType(0x10))));
}
