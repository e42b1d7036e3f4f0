//! Binary framing of the consumer (audio out) and producer (audio in) protocols.
//!
//! Every frame is `[type: u8][payload length: u32 LE][payload]`.
use vstd::prelude::*;
use vstd::bytes::*;
use vstd::utf8::*;

verus! {

broadcast use {vstd::utf8::encode_utf8_valid_utf8, vstd::utf8::encode_utf8_decode_utf8};

/// Payloads larger than this are refused when a frame is read (10 MiB).
pub const MAX_PAYLOAD_SIZE: u32 = 10485760;

/// 2^32, the modulus of a payload length written into the `u32` length field.
pub open spec fn u32_modulus() -> int {
    0x1_0000_0000
}

/// A byte count as it lands in a `u32` field: reduced modulo 2^32.
pub open spec fn len_field(n: int) -> u32 {
    (n % u32_modulus()) as u32
}

// ---------------------------------------------------------------------------
// Outside types and calls
// ---------------------------------------------------------------------------

#[verifier::external_type_specification]
#[verifier::external_body]
pub struct ExIoError(std::io::Error);

#[verifier::external_type_specification]
#[verifier::external_body]
pub struct ExUtf8Error(core::str::Utf8Error);

/// Calls `std::io::Read::read_exact` on a fresh buffer of `n` bytes.
/// Claimed: on success the buffer handed back holds exactly `n` bytes.
/// What those bytes are depends on the stream and is left unsaid.
#[verifier::external_body]
fn read_exact_vec<T: std::io::Read>(stream: &mut T, n: usize) -> (r: Result<Vec<u8>, std::io::Error>)
    ensures
        r matches Ok(v) ==> v@.len() == n,
{
    let mut buf = vec![0u8; n];
    stream.read_exact(&mut buf).map(|_| buf)
}

/// Calls `std::io::Write::write_all`. Nothing is claimed of the outcome:
/// it depends on the stream.
#[verifier::external_body]
fn write_all_bytes<T: std::io::Write>(stream: &mut T, bytes: &[u8]) -> (r: Result<(), std::io::Error>) {
    stream.write_all(bytes)
}

/// Calls `core::str::from_utf8`. Claimed, as its documentation states: it
/// succeeds exactly on well-formed UTF-8, and then the string holds the
/// decoded characters.
#[verifier::external_body]
fn utf8_from_bytes(bytes: &[u8]) -> (r: Result<&str, core::str::Utf8Error>)
    ensures
        r is Ok <==> valid_utf8(bytes@),
        r matches Ok(s) ==> s@ == decode_utf8(bytes@),
{
    core::str::from_utf8(bytes)
}

#[verifier::external_type_specification]
#[verifier::external_body]
pub struct ExSystemTime(std::time::SystemTime);

/// Calls `SystemTime::now`. Nothing is claimed: it reads the clock.
#[verifier::external_body]
fn system_time_now() -> std::time::SystemTime {
    std::time::SystemTime::now()
}

/// Calls `SystemTime::duration_since(UNIX_EPOCH)` and takes the whole
/// milliseconds; `None` when `t` lies before the epoch. Nothing is claimed
/// of the value: `SystemTime` is opaque here.
#[verifier::external_body]
fn millis_since_epoch(t: std::time::SystemTime) -> Option<u128> {
    t.duration_since(std::time::UNIX_EPOCH).ok().map(|d| d.as_millis())
}

/// Milliseconds since the Unix epoch by the system clock; `None` when the
/// clock is set before the epoch.
fn unix_time_millis() -> Option<u128> {
    millis_since_epoch(system_time_now())
}

// ---------------------------------------------------------------------------
// Errors
// ---------------------------------------------------------------------------

#[derive(Debug)]
pub enum ProtocolError {
    Io(std::io::Error),
    InvalidPayloadSize(u32),
    Utf8(core::str::Utf8Error),
    InvalidMessageType(u8),
}

/// What a contract can say of a [`ProtocolError`]: its variant and plain payload.
pub enum ProtocolErrorKind {
    Io,
    InvalidPayloadSize(u32),
    Utf8,
    InvalidMessageType(u8),
}

impl ProtocolError {
    pub open spec fn kind(&self) -> ProtocolErrorKind {
        match self {
            ProtocolError::Io(_) => ProtocolErrorKind::Io,
            ProtocolError::InvalidPayloadSize(n) => ProtocolErrorKind::InvalidPayloadSize(*n),
            ProtocolError::Utf8(_) => ProtocolErrorKind::Utf8,
            ProtocolError::InvalidMessageType(b) => ProtocolErrorKind::InvalidMessageType(*b),
        }
    }
}

// ---------------------------------------------------------------------------
// Small helpers
// ---------------------------------------------------------------------------

/// A length as written into a `u32` field (reduced modulo 2^32).
fn truncate_len(n: usize) -> (r: u32)
    ensures
        r == len_field(n as int),
{
    ((n as u64) % 4294967296u64) as u32
}

/// `n + extra` as written into a `u32` field.
fn truncate_len_plus(n: usize, extra: u32) -> (r: u32)
    ensures
        r == len_field(n + extra),
{
    let a: u64 = (n as u64) % 4294967296u64;
    let b: u64 = (a + extra as u64) % 4294967296u64;
    proof {
        vstd::arithmetic::div_mod::lemma_add_mod_noop(n as int, extra as int, u32_modulus());
        vstd::arithmetic::div_mod::lemma_small_mod(extra as nat, u32_modulus() as nat);
    }
    b as u32
}

pub open spec fn bool_byte(b: bool) -> u8 {
    if b { 1 } else { 0 }
}

/// Appends the bytes of a `u32` in little-endian order.
fn push_u32_le(bytes: &mut Vec<u8>, x: u32)
    ensures
        final(bytes)@ == old(bytes)@ + spec_u32_to_le_bytes(x),
{
    let mut v = u32_to_le_bytes(x);
    bytes.append(&mut v);
}

/// Appends the bytes of a `u64` in little-endian order.
fn push_u64_le(bytes: &mut Vec<u8>, x: u64)
    ensures
        final(bytes)@ == old(bytes)@ + spec_u64_to_le_bytes(x),
{
    let mut v = u64_to_le_bytes(x);
    bytes.append(&mut v);
}

/// Appends a slice of bytes.
fn push_bytes(bytes: &mut Vec<u8>, data: &[u8])
    ensures
        final(bytes)@ == old(bytes)@ + data@,
{
    let mut v = vstd::slice::slice_to_vec(data);
    bytes.append(&mut v);
}

/// A millisecond timestamp as the protocol carries it: the reading of the
/// clock reduced modulo 2^64, and 0 when the clock stands before the epoch.
pub fn timestamp_from_millis(millis: Option<u128>) -> (r: u64)
    ensures
        r == match millis {
            Some(ms) => (ms % 0x1_0000_0000_0000_0000) as u64,
            None => 0,
        },
{
    match millis {
        Some(ms) => (ms % 18446744073709551616u128) as u64,
        None => 0,
    }
}

// ---------------------------------------------------------------------------
// Consumer protocol
// ---------------------------------------------------------------------------

/// Message types of the consumer protocol (audio service to client).
#[derive(Debug, Clone, Copy, PartialEq, Eq, Structural)]
pub enum ConsumerMessageType {
    Error,
    Audio,
    WakewordDetected,
}

impl ConsumerMessageType {
    pub open spec fn spec_byte(self) -> u8 {
        match self {
            ConsumerMessageType::Error => 0x11,
            ConsumerMessageType::Audio => 0x12,
            ConsumerMessageType::WakewordDetected => 0x15,
        }
    }

    /// The byte that identifies this type on the wire.
    pub fn as_byte(self) -> (b: u8)
        ensures
            b == self.spec_byte(),
    {
        match self {
            ConsumerMessageType::Error => 0x11,
            ConsumerMessageType::Audio => 0x12,
            ConsumerMessageType::WakewordDetected => 0x15,
        }
    }
}

pub open spec fn consumer_type_from_byte(b: u8) -> Option<ConsumerMessageType> {
    if b == 0x11 {
        Some(ConsumerMessageType::Error)
    } else if b == 0x12 {
        Some(ConsumerMessageType::Audio)
    } else if b == 0x15 {
        Some(ConsumerMessageType::WakewordDetected)
    } else {
        None
    }
}

impl TryFrom<u8> for ConsumerMessageType {
    type Error = ProtocolError;

    fn try_from(value: u8) -> (r: Result<ConsumerMessageType, ProtocolError>) {
        if value == 0x11 {
            Ok(ConsumerMessageType::Error)
        } else if value == 0x12 {
            Ok(ConsumerMessageType::Audio)
        } else if value == 0x15 {
            Ok(ConsumerMessageType::WakewordDetected)
        } else {
            Err(ProtocolError::InvalidMessageType(value))
        }
    }
}

impl vstd::std_specs::convert::TryFromSpecImpl<u8> for ConsumerMessageType {
    open spec fn obeys_try_from_spec() -> bool {
        true
    }

    open spec fn try_from_spec(v: u8) -> Result<ConsumerMessageType, ProtocolError> {
        match consumer_type_from_byte(v) {
            Some(t) => Ok(t),
            None => Err(ProtocolError::InvalidMessageType(v)),
        }
    }
}

/// Consumer protocol messages.
#[derive(Debug, Clone)]
pub enum ConsumerMessage {
    Error { message: String },
    Audio { data: Vec<u8>, speech_detected: bool, timestamp: u64 },
    WakewordDetected { model: String, timestamp: u64, spotify_was_paused: bool },
}

/// The plain content of a [`ConsumerMessage`].
pub enum ConsumerMessageView {
    Error { message: Seq<char> },
    Audio { data: Seq<u8>, speech_detected: bool, timestamp: u64 },
    WakewordDetected { model: Seq<char>, timestamp: u64, spotify_was_paused: bool },
}

impl View for ConsumerMessage {
    type V = ConsumerMessageView;

    open spec fn view(&self) -> ConsumerMessageView {
        match self {
            ConsumerMessage::Error { message } => ConsumerMessageView::Error { message: message@ },
            ConsumerMessage::Audio { data, speech_detected, timestamp } => ConsumerMessageView::Audio {
                data: data@,
                speech_detected: *speech_detected,
                timestamp: *timestamp,
            },
            ConsumerMessage::WakewordDetected { model, timestamp, spotify_was_paused } =>
                ConsumerMessageView::WakewordDetected {
                model: model@,
                timestamp: *timestamp,
                spotify_was_paused: *spotify_was_paused,
            },
        }
    }
}

pub open spec fn consumer_type_of(m: ConsumerMessageView) -> ConsumerMessageType {
    match m {
        ConsumerMessageView::Error { .. } => ConsumerMessageType::Error,
        ConsumerMessageView::Audio { .. } => ConsumerMessageType::Audio,
        ConsumerMessageView::WakewordDetected { .. } => ConsumerMessageType::WakewordDetected,
    }
}

/// Payload bytes of a consumer message.
pub open spec fn consumer_payload(m: ConsumerMessageView) -> Seq<u8> {
    match m {
        ConsumerMessageView::Error { message } => encode_utf8(message),
        ConsumerMessageView::Audio { data, speech_detected, timestamp } => spec_u64_to_le_bytes(timestamp)
            + seq![bool_byte(speech_detected)] + spec_u32_to_le_bytes(len_field(data.len() as int))
            + data,
        ConsumerMessageView::WakewordDetected { model, timestamp, spotify_was_paused } =>
            spec_u64_to_le_bytes(timestamp) + seq![bool_byte(spotify_was_paused)]
            + spec_u32_to_le_bytes(len_field(encode_utf8(model).len() as int)) + encode_utf8(model),
    }
}

/// The whole frame of a consumer message: type byte, payload length, payload.
pub open spec fn consumer_frame(m: ConsumerMessageView) -> Seq<u8> {
    seq![consumer_type_of(m).spec_byte()] + spec_u32_to_le_bytes(
        len_field(consumer_payload(m).len() as int),
    ) + consumer_payload(m)
}

/// What decoding a consumer payload of the given type yields.
pub open spec fn decode_consumer_payload(t: ConsumerMessageType, p: Seq<u8>) -> Result<
    ConsumerMessageView,
    ProtocolErrorKind,
> {
    match t {
        ConsumerMessageType::Error => if valid_utf8(p) {
            Ok(ConsumerMessageView::Error { message: decode_utf8(p) })
        } else {
            Err(ProtocolErrorKind::Utf8)
        },
        ConsumerMessageType::Audio => if p.len() < 13 {
            Err(ProtocolErrorKind::InvalidPayloadSize(len_field(p.len() as int)))
        } else {
            let n = spec_u32_from_le_bytes(p.subrange(9, 13)) as int;
            if p.len() < 13 + n {
                Err(ProtocolErrorKind::InvalidPayloadSize(len_field(p.len() as int)))
            } else {
                Ok(
                    ConsumerMessageView::Audio {
                        data: p.subrange(13, 13 + n),
                        speech_detected: p[8] != 0,
                        timestamp: spec_u64_from_le_bytes(p.subrange(0, 8)),
                    },
                )
            }
        },
        ConsumerMessageType::WakewordDetected => if p.len() < 13 {
            Err(ProtocolErrorKind::InvalidPayloadSize(len_field(p.len() as int)))
        } else {
            let n = spec_u32_from_le_bytes(p.subrange(9, 13)) as int;
            if p.len() < 13 + n {
                Err(ProtocolErrorKind::InvalidPayloadSize(len_field(p.len() as int)))
            } else if !valid_utf8(p.subrange(13, 13 + n)) {
                Err(ProtocolErrorKind::Utf8)
            } else {
                Ok(
                    ConsumerMessageView::WakewordDetected {
                        model: decode_utf8(p.subrange(13, 13 + n)),
                        timestamp: spec_u64_from_le_bytes(p.subrange(0, 8)),
                        spotify_was_paused: p[8] != 0,
                    },
                )
            }
        },
    }
}

/// What reading one consumer frame yields when the stream hands out `bytes`
/// and then ends: the frame is the longest prefix that reading consumes.
pub open spec fn decode_consumer_frame(bytes: Seq<u8>) -> Result<ConsumerMessageView, ProtocolErrorKind> {
    if bytes.len() < 1 {
        Err(ProtocolErrorKind::Io)
    } else {
        match consumer_type_from_byte(bytes[0]) {
            None => Err(ProtocolErrorKind::InvalidMessageType(bytes[0])),
            Some(t) => if bytes.len() < 5 {
                Err(ProtocolErrorKind::Io)
            } else {
                let size = spec_u32_from_le_bytes(bytes.subrange(1, 5));
                if size > MAX_PAYLOAD_SIZE {
                    Err(ProtocolErrorKind::InvalidPayloadSize(size))
                } else if bytes.len() < 5 + size {
                    Err(ProtocolErrorKind::Io)
                } else {
                    decode_consumer_payload(t, bytes.subrange(5, 5 + size))
                }
            },
        }
    }
}

pub open spec fn consumer_outcome(r: Result<ConsumerMessage, ProtocolError>) -> Result<
    ConsumerMessageView,
    ProtocolErrorKind,
> {
    match r {
        Ok(m) => Ok(m@),
        Err(e) => Err(e.kind()),
    }
}

impl ConsumerMessage {
    /// Current time in milliseconds since the Unix epoch.
    /// The value depends on the clock, so no clause states it; it is
    /// [`timestamp_from_millis`] of the clock's reading.
    pub fn current_timestamp() -> u64 {
        timestamp_from_millis(unix_time_millis())
    }

    /// Serializes the message: `[type: u8][payload length: u32 LE][payload]`.
    pub fn to_bytes(&self) -> (r: Result<Vec<u8>, ProtocolError>)
        ensures
            r matches Ok(v) && v@ == consumer_frame(self@),
    {
        let mut bytes: Vec<u8> = Vec::new();
        match self {
            ConsumerMessage::Error { message } => {
                bytes.push(ConsumerMessageType::Error.as_byte());
                let msg_bytes = message.as_str().as_bytes();
                push_u32_le(&mut bytes, truncate_len(msg_bytes.len()));
                push_bytes(&mut bytes, msg_bytes);
            },
            ConsumerMessage::Audio { data, speech_detected, timestamp } => {
                bytes.push(ConsumerMessageType::Audio.as_byte());
                // Payload: [timestamp: u64][speech_detected: u8][data_length: u32][data]
                push_u32_le(&mut bytes, truncate_len_plus(data.len(), 13));
                push_u64_le(&mut bytes, *timestamp);
                bytes.push(if *speech_detected { 1u8 } else { 0u8 });
                push_u32_le(&mut bytes, truncate_len(data.len()));
                push_bytes(&mut bytes, data.as_slice());
            },
            ConsumerMessage::WakewordDetected { model, timestamp, spotify_was_paused } => {
                bytes.push(ConsumerMessageType::WakewordDetected.as_byte());
                // Payload: [timestamp: u64][spotify_was_paused: u8][model_len: u32][model]
                let model_bytes = model.as_str().as_bytes();
                push_u32_le(&mut bytes, truncate_len_plus(model_bytes.len(), 13));
                push_u64_le(&mut bytes, *timestamp);
                bytes.push(if *spotify_was_paused { 1u8 } else { 0u8 });
                push_u32_le(&mut bytes, truncate_len(model_bytes.len()));
                push_bytes(&mut bytes, model_bytes);
            },
        }
        proof {
            lemma_auto_spec_u32_to_from_le_bytes();
            lemma_auto_spec_u64_to_from_le_bytes();
            assert(bytes@ =~= consumer_frame(self@));
        }
        Ok(bytes)
    }

    /// Deserializes a payload of the given type.
    pub fn from_bytes(msg_type: ConsumerMessageType, payload: &[u8]) -> (r: Result<Self, ProtocolError>)
        ensures
            consumer_outcome(r) == decode_consumer_payload(msg_type, payload@),
    {
        match msg_type {
            ConsumerMessageType::Error => match utf8_from_bytes(payload) {
                Ok(s) => Ok(ConsumerMessage::Error { message: s.to_owned() }),
                Err(e) => Err(ProtocolError::Utf8(e)),
            },
            ConsumerMessageType::Audio => {
                if payload.len() < 13 {
                    return Err(ProtocolError::InvalidPayloadSize(truncate_len(payload.len())));
                }
                let timestamp = u64_from_le_bytes(vstd::slice::slice_subrange(payload, 0, 8));
                let speech_detected = payload[8] != 0;
                let data_length = u32_from_le_bytes(vstd::slice::slice_subrange(payload, 9, 13));
                if (payload.len() as u64) < 13 + (data_length as u64) {
                    return Err(ProtocolError::InvalidPayloadSize(truncate_len(payload.len())));
                }
                let end: usize = 13 + data_length as usize;
                let data = vstd::slice::slice_to_vec(vstd::slice::slice_subrange(payload, 13, end));
                Ok(ConsumerMessage::Audio { data, speech_detected, timestamp })
            },
            ConsumerMessageType::WakewordDetected => {
                if payload.len() < 13 {
                    return Err(ProtocolError::InvalidPayloadSize(truncate_len(payload.len())));
                }
                let timestamp = u64_from_le_bytes(vstd::slice::slice_subrange(payload, 0, 8));
                let spotify_was_paused = payload[8] != 0;
                let model_len = u32_from_le_bytes(vstd::slice::slice_subrange(payload, 9, 13));
                if (payload.len() as u64) < 13 + (model_len as u64) {
                    return Err(ProtocolError::InvalidPayloadSize(truncate_len(payload.len())));
                }
                let end: usize = 13 + model_len as usize;
                match utf8_from_bytes(vstd::slice::slice_subrange(payload, 13, end)) {
                    Ok(s) => Ok(
                        ConsumerMessage::WakewordDetected {
                            model: s.to_owned(),
                            timestamp,
                            spotify_was_paused,
                        },
                    ),
                    Err(e) => Err(ProtocolError::Utf8(e)),
                }
            },
        }
    }
}


// ---------------------------------------------------------------------------
// Producer protocol
// ---------------------------------------------------------------------------

/// Message types of the producer protocol (client to audio service and back).
#[derive(Debug, Clone, Copy, PartialEq, Eq, Structural)]
pub enum ProducerMessageType {
    Play,
    Stop,
    EndOfStream,
    Error,
    PlaybackComplete,
}

impl ProducerMessageType {
    pub open spec fn spec_byte(self) -> u8 {
        match self {
            ProducerMessageType::Play => 0x20,
            ProducerMessageType::Stop => 0x21,
            ProducerMessageType::EndOfStream => 0x22,
            ProducerMessageType::Error => 0x31,
            ProducerMessageType::PlaybackComplete => 0x32,
        }
    }

    /// The byte that identifies this type on the wire.
    pub fn as_byte(self) -> (b: u8)
        ensures
            b == self.spec_byte(),
    {
        match self {
            ProducerMessageType::Play => 0x20,
            ProducerMessageType::Stop => 0x21,
            ProducerMessageType::EndOfStream => 0x22,
            ProducerMessageType::Error => 0x31,
            ProducerMessageType::PlaybackComplete => 0x32,
        }
    }
}

pub open spec fn producer_type_from_byte(b: u8) -> Option<ProducerMessageType> {
    if b == 0x20 {
        Some(ProducerMessageType::Play)
    } else if b == 0x21 {
        Some(ProducerMessageType::Stop)
    } else if b == 0x22 {
        Some(ProducerMessageType::EndOfStream)
    } else if b == 0x31 {
        Some(ProducerMessageType::Error)
    } else if b == 0x32 {
        Some(ProducerMessageType::PlaybackComplete)
    } else {
        None
    }
}

impl TryFrom<u8> for ProducerMessageType {
    type Error = ProtocolError;

    fn try_from(value: u8) -> (r: Result<ProducerMessageType, ProtocolError>) {
        if value == 0x20 {
            Ok(ProducerMessageType::Play)
        } else if value == 0x21 {
            Ok(ProducerMessageType::Stop)
        } else if value == 0x22 {
            Ok(ProducerMessageType::EndOfStream)
        } else if value == 0x31 {
            Ok(ProducerMessageType::Error)
        } else if value == 0x32 {
            Ok(ProducerMessageType::PlaybackComplete)
        } else {
            Err(ProtocolError::InvalidMessageType(value))
        }
    }
}

impl vstd::std_specs::convert::TryFromSpecImpl<u8> for ProducerMessageType {
    open spec fn obeys_try_from_spec() -> bool {
        true
    }

    open spec fn try_from_spec(v: u8) -> Result<ProducerMessageType, ProtocolError> {
        match producer_type_from_byte(v) {
            Some(t) => Ok(t),
            None => Err(ProtocolError::InvalidMessageType(v)),
        }
    }
}

/// Producer protocol messages.
#[derive(Debug, Clone)]
pub enum ProducerMessage {
    Play { data: Vec<u8> },
    Stop { timestamp: u64 },
    EndOfStream { timestamp: u64 },
    Error { message: String },
    PlaybackComplete { timestamp: u64 },
}

/// The plain content of a [`ProducerMessage`].
pub enum ProducerMessageView {
    Play { data: Seq<u8> },
    Stop { timestamp: u64 },
    EndOfStream { timestamp: u64 },
    Error { message: Seq<char> },
    PlaybackComplete { timestamp: u64 },
}

impl View for ProducerMessage {
    type V = ProducerMessageView;

    open spec fn view(&self) -> ProducerMessageView {
        match self {
            ProducerMessage::Play { data } => ProducerMessageView::Play { data: data@ },
            ProducerMessage::Stop { timestamp } => ProducerMessageView::Stop { timestamp: *timestamp },
            ProducerMessage::EndOfStream { timestamp } => ProducerMessageView::EndOfStream {
                timestamp: *timestamp,
            },
            ProducerMessage::Error { message } => ProducerMessageView::Error { message: message@ },
            ProducerMessage::PlaybackComplete { timestamp } => ProducerMessageView::PlaybackComplete {
                timestamp: *timestamp,
            },
        }
    }
}

pub open spec fn producer_type_of(m: ProducerMessageView) -> ProducerMessageType {
    match m {
        ProducerMessageView::Play { .. } => ProducerMessageType::Play,
        ProducerMessageView::Stop { .. } => ProducerMessageType::Stop,
        ProducerMessageView::EndOfStream { .. } => ProducerMessageType::EndOfStream,
        ProducerMessageView::Error { .. } => ProducerMessageType::Error,
        ProducerMessageView::PlaybackComplete { .. } => ProducerMessageType::PlaybackComplete,
    }
}

/// Payload bytes of a producer message.
pub open spec fn producer_payload(m: ProducerMessageView) -> Seq<u8> {
    match m {
        ProducerMessageView::Play { data } => data,
        ProducerMessageView::Stop { timestamp } => spec_u64_to_le_bytes(timestamp),
        ProducerMessageView::EndOfStream { timestamp } => spec_u64_to_le_bytes(timestamp),
        ProducerMessageView::Error { message } => encode_utf8(message),
        ProducerMessageView::PlaybackComplete { timestamp } => spec_u64_to_le_bytes(timestamp),
    }
}

/// The whole frame of a producer message: type byte, payload length, payload.
pub open spec fn producer_frame(m: ProducerMessageView) -> Seq<u8> {
    seq![producer_type_of(m).spec_byte()] + spec_u32_to_le_bytes(
        len_field(producer_payload(m).len() as int),
    ) + producer_payload(m)
}

/// What decoding a producer payload of the given type yields.
pub open spec fn decode_producer_payload(t: ProducerMessageType, p: Seq<u8>) -> Result<
    ProducerMessageView,
    ProtocolErrorKind,
> {
    match t {
        ProducerMessageType::Play => Ok(ProducerMessageView::Play { data: p }),
        ProducerMessageType::Stop => if p.len() != 8 {
            Err(ProtocolErrorKind::InvalidPayloadSize(len_field(p.len() as int)))
        } else {
            Ok(ProducerMessageView::Stop { timestamp: spec_u64_from_le_bytes(p) })
        },
        ProducerMessageType::EndOfStream => if p.len() != 8 {
            Err(ProtocolErrorKind::InvalidPayloadSize(len_field(p.len() as int)))
        } else {
            Ok(ProducerMessageView::EndOfStream { timestamp: spec_u64_from_le_bytes(p) })
        },
        ProducerMessageType::Error => if valid_utf8(p) {
            Ok(ProducerMessageView::Error { message: decode_utf8(p) })
        } else {
            Err(ProtocolErrorKind::Utf8)
        },
        ProducerMessageType::PlaybackComplete => if p.len() != 8 {
            Err(ProtocolErrorKind::InvalidPayloadSize(len_field(p.len() as int)))
        } else {
            Ok(ProducerMessageView::PlaybackComplete { timestamp: spec_u64_from_le_bytes(p) })
        },
    }
}

/// What reading one producer frame yields when the stream hands out `bytes`
/// and then ends.
pub open spec fn decode_producer_frame(bytes: Seq<u8>) -> Result<ProducerMessageView, ProtocolErrorKind> {
    if bytes.len() < 1 {
        Err(ProtocolErrorKind::Io)
    } else {
        match producer_type_from_byte(bytes[0]) {
            None => Err(ProtocolErrorKind::InvalidMessageType(bytes[0])),
            Some(t) => if bytes.len() < 5 {
                Err(ProtocolErrorKind::Io)
            } else {
                let size = spec_u32_from_le_bytes(bytes.subrange(1, 5));
                if size > MAX_PAYLOAD_SIZE {
                    Err(ProtocolErrorKind::InvalidPayloadSize(size))
                } else if bytes.len() < 5 + size {
                    Err(ProtocolErrorKind::Io)
                } else {
                    decode_producer_payload(t, bytes.subrange(5, 5 + size))
                }
            },
        }
    }
}

pub open spec fn producer_outcome(r: Result<ProducerMessage, ProtocolError>) -> Result<
    ProducerMessageView,
    ProtocolErrorKind,
> {
    match r {
        Ok(m) => Ok(m@),
        Err(e) => Err(e.kind()),
    }
}

impl ProducerMessage {
    /// Current time in milliseconds since the Unix epoch.
    /// The value depends on the clock, so no clause states it; it is
    /// [`timestamp_from_millis`] of the clock's reading.
    pub fn current_timestamp() -> u64 {
        timestamp_from_millis(unix_time_millis())
    }

    /// Serializes the message: `[type: u8][payload length: u32 LE][payload]`.
    pub fn to_bytes(&self) -> (r: Result<Vec<u8>, ProtocolError>)
        ensures
            r matches Ok(v) && v@ == producer_frame(self@),
    {
        let mut bytes: Vec<u8> = Vec::new();
        match self {
            ProducerMessage::Play { data } => {
                bytes.push(ProducerMessageType::Play.as_byte());
                push_u32_le(&mut bytes, truncate_len(data.len()));
                push_bytes(&mut bytes, data.as_slice());
            },
            ProducerMessage::Stop { timestamp } => {
                bytes.push(ProducerMessageType::Stop.as_byte());
                push_u32_le(&mut bytes, 8);
                push_u64_le(&mut bytes, *timestamp);
            },
            ProducerMessage::EndOfStream { timestamp } => {
                bytes.push(ProducerMessageType::EndOfStream.as_byte());
                push_u32_le(&mut bytes, 8);
                push_u64_le(&mut bytes, *timestamp);
            },
            ProducerMessage::Error { message } => {
                bytes.push(ProducerMessageType::Error.as_byte());
                let msg_bytes = message.as_str().as_bytes();
                push_u32_le(&mut bytes, truncate_len(msg_bytes.len()));
                push_bytes(&mut bytes, msg_bytes);
            },
            ProducerMessage::PlaybackComplete { timestamp } => {
                bytes.push(ProducerMessageType::PlaybackComplete.as_byte());
                push_u32_le(&mut bytes, 8);
                push_u64_le(&mut bytes, *timestamp);
            },
        }
        proof {
            lemma_auto_spec_u32_to_from_le_bytes();
            lemma_auto_spec_u64_to_from_le_bytes();
            assert(bytes@ =~= producer_frame(self@));
        }
        Ok(bytes)
    }

    /// Deserializes a payload of the given type.
    pub fn from_bytes(msg_type: ProducerMessageType, payload: &[u8]) -> (r: Result<Self, ProtocolError>)
        ensures
            producer_outcome(r) == decode_producer_payload(msg_type, payload@),
    {
        match msg_type {
            ProducerMessageType::Play => Ok(
                ProducerMessage::Play { data: vstd::slice::slice_to_vec(payload) },
            ),
            ProducerMessageType::Stop => {
                if payload.len() != 8 {
                    return Err(ProtocolError::InvalidPayloadSize(truncate_len(payload.len())));
                }
                Ok(ProducerMessage::Stop { timestamp: u64_from_le_bytes(payload) })
            },
            ProducerMessageType::EndOfStream => {
                if payload.len() != 8 {
                    return Err(ProtocolError::InvalidPayloadSize(truncate_len(payload.len())));
                }
                Ok(ProducerMessage::EndOfStream { timestamp: u64_from_le_bytes(payload) })
            },
            ProducerMessageType::Error => match utf8_from_bytes(payload) {
                Ok(s) => Ok(ProducerMessage::Error { message: s.to_owned() }),
                Err(e) => Err(ProtocolError::Utf8(e)),
            },
            ProducerMessageType::PlaybackComplete => {
                if payload.len() != 8 {
                    return Err(ProtocolError::InvalidPayloadSize(truncate_len(payload.len())));
                }
                Ok(ProducerMessage::PlaybackComplete { timestamp: u64_from_le_bytes(payload) })
            },
        }
    }
}

// ---------------------------------------------------------------------------
// Connections
// ---------------------------------------------------------------------------

/// What the five header bytes of a consumer frame say: the message type and
/// the payload size, or the error the header alone decides.
pub open spec fn consumer_header(type_byte: u8, size_bytes: Seq<u8>) -> Result<(ConsumerMessageType, u32), ProtocolErrorKind> {
    match consumer_type_from_byte(type_byte) {
        None => Err(ProtocolErrorKind::InvalidMessageType(type_byte)),
        Some(t) => {
            let size = spec_u32_from_le_bytes(size_bytes);
            if size > MAX_PAYLOAD_SIZE {
                Err(ProtocolErrorKind::InvalidPayloadSize(size))
            } else {
                Ok((t, size))
            }
        },
    }
}

pub open spec fn consumer_header_outcome(r: Result<(ConsumerMessageType, u32), ProtocolError>) -> Result<
    (ConsumerMessageType, u32),
    ProtocolErrorKind,
> {
    match r {
        Ok(h) => Ok(h),
        Err(e) => Err(e.kind()),
    }
}

/// Whether `frame` holds exactly the bytes a reader takes off the stream for
/// one consumer frame: the type byte alone when it names no type, the five
/// header bytes when the size is over the limit, and otherwise the header
/// followed by as many payload bytes as the header declares.
pub open spec fn consumer_frame_extent(frame: Seq<u8>) -> bool {
    &&& frame.len() >= 1
    &&& match consumer_type_from_byte(frame[0]) {
        None => frame.len() == 1,
        Some(_) => frame.len() >= 5 && {
            let size = spec_u32_from_le_bytes(frame.subrange(1, 5));
            if size > MAX_PAYLOAD_SIZE {
                frame.len() == 5
            } else {
                frame.len() == 5 + size
            }
        },
    }
}

/// Decodes the header of a consumer frame: the type byte and the four bytes of
/// the little-endian payload size. Refused when the byte names no type, or
/// when the size is over [`MAX_PAYLOAD_SIZE`].
pub fn decode_consumer_header(type_byte: u8, size_bytes: &[u8]) -> (r: Result<(ConsumerMessageType, u32), ProtocolError>)
    requires
        size_bytes@.len() == 4,
    ensures
        consumer_header_outcome(r) == consumer_header(type_byte, size_bytes@),
{
    let t = match ConsumerMessageType::try_from(type_byte) {
        Ok(t) => t,
        Err(e) => return Err(e),
    };
    let size = u32_from_le_bytes(size_bytes);
    if size > MAX_PAYLOAD_SIZE {
        return Err(ProtocolError::InvalidPayloadSize(size));
    }
    Ok((t, size))
}

/// Binary protocol connection for consumers.
pub struct ConsumerConnection<T> {
    stream: T,
    sent: Ghost<Seq<u8>>,
    received: Ghost<Seq<u8>>,
}

impl<T> ConsumerConnection<T> {
    /// The underlying stream.
    pub closed spec fn stream(&self) -> T {
        self.stream
    }

    /// Every byte this connection has handed to the stream's `write_all`,
    /// in order, since it was made.
    pub closed spec fn sent(&self) -> Seq<u8> {
        self.sent@
    }

    /// Every byte this connection has taken from the stream's `read_exact`,
    /// in order, since it was made.
    pub closed spec fn received(&self) -> Seq<u8> {
        self.received@
    }
}

impl<T: std::io::Read + std::io::Write> ConsumerConnection<T> {
    pub fn new(stream: T) -> (r: Self)
        ensures
            r.stream() == stream,
            r.sent() == Seq::<u8>::empty(),
            r.received() == Seq::<u8>::empty(),
    {
        Self { stream, sent: Ghost(Seq::empty()), received: Ghost(Seq::empty()) }
    }

    /// Reads one frame from the stream and decodes it: one type byte, then
    /// (when it names a type) the four size bytes, then (when the header is
    /// accepted by [`decode_consumer_header`]) exactly as many payload bytes as
    /// the header declares. The bytes that the stream's `read_exact` hands
    /// out are added to [`ConsumerConnection::received`]; the outcome is what
    /// [`decode_consumer_frame`] makes of them, and unless the stream failed
    /// they are exactly one frame's extent (a read that fails counts as the
    /// stream ending there).
    pub fn read_message(&mut self) -> (r: Result<ConsumerMessage, ProtocolError>)
        ensures
            final(self).sent() == old(self).sent(),
            exists|frame: Seq<u8>|
                final(self).received() == old(self).received() + frame && #[trigger] decode_consumer_frame(frame)
                    == consumer_outcome(r) && (consumer_outcome(r) != Err::<ConsumerMessageView, ProtocolErrorKind>(
                    ProtocolErrorKind::Io,
                ) ==> consumer_frame_extent(frame)),
    {
        let ghost start = self.received@;
        let type_byte = match read_exact_vec(&mut self.stream, 1) {
            Ok(v) => v,
            Err(e) => {
                let r = Err(ProtocolError::Io(e));
                assert(self.received@ =~= start + seq![]);
                assert(decode_consumer_frame(seq![]) == consumer_outcome(r));
                return r;
            },
        };
        proof {
            self.received = Ghost(self.received@ + type_byte@);
        }
        match ConsumerMessageType::try_from(type_byte[0]) {
            Ok(_) => {},
            Err(e) => {
                let r = Err(e);
                assert(decode_consumer_frame(type_byte@) == consumer_outcome(r));
                return r;
            },
        }
        let size_bytes = match read_exact_vec(&mut self.stream, 4) {
            Ok(v) => v,
            Err(e) => {
                let r = Err(ProtocolError::Io(e));
                assert(decode_consumer_frame(type_byte@) == consumer_outcome(r));
                return r;
            },
        };
        let ghost header = type_byte@ + size_bytes@;
        proof {
            self.received = Ghost(start + header);
        }
        assert(header.subrange(1, 5) =~= size_bytes@);
        let (message_type, payload_size) = match decode_consumer_header(type_byte[0], size_bytes.as_slice()) {
            Ok(h) => h,
            Err(e) => {
                let r = Err(e);
                assert(decode_consumer_frame(header) == consumer_outcome(r));
                assert(consumer_frame_extent(header));
                return r;
            },
        };
        let payload = if payload_size > 0 {
            match read_exact_vec(&mut self.stream, payload_size as usize) {
                Ok(v) => v,
                Err(e) => {
                    let r = Err(ProtocolError::Io(e));
                    assert(decode_consumer_frame(header) == consumer_outcome(r));
                    return r;
                },
            }
        } else {
            Vec::new()
        };
        let ghost frame = header + payload@;
        proof {
            self.received = Ghost(start + frame);
        }
        let r = ConsumerMessage::from_bytes(message_type, payload.as_slice());
        assert(frame.subrange(1, 5) =~= size_bytes@);
        assert(frame.subrange(5, 5 + payload_size) =~= payload@);
        assert(decode_consumer_frame(frame) == consumer_outcome(r));
        assert(consumer_frame_extent(frame));
        r
    }

    /// Hands the frame of `message`, as [`ConsumerMessage::to_bytes`] makes it,
    /// to the stream's `write_all`, and records it in
    /// [`ConsumerConnection::sent`]. Whether the bytes reach the stream, and
    /// whether the call succeeds, is up to the stream; nothing here states
    /// it. The only error is an I/O error.
    pub fn write_message(&mut self, message: &ConsumerMessage) -> (r: Result<(), ProtocolError>)
        ensures
            final(self).sent() == old(self).sent() + consumer_frame(message@),
            final(self).received() == old(self).received(),
            r matches Err(e) ==> e.kind() == ProtocolErrorKind::Io,
    {
        let bytes = message.to_bytes()?;
        proof {
            self.sent = Ghost(self.sent@ + bytes@);
        }
        match write_all_bytes(&mut self.stream, bytes.as_slice()) {
            Ok(()) => Ok(()),
            Err(e) => Err(ProtocolError::Io(e)),
        }
    }
}

/// What the five header bytes of a producer frame say: the message type and
/// the payload size, or the error the header alone decides.
pub open spec fn producer_header(type_byte: u8, size_bytes: Seq<u8>) -> Result<(ProducerMessageType, u32), ProtocolErrorKind> {
    match producer_type_from_byte(type_byte) {
        None => Err(ProtocolErrorKind::InvalidMessageType(type_byte)),
        Some(t) => {
            let size = spec_u32_from_le_bytes(size_bytes);
            if size > MAX_PAYLOAD_SIZE {
                Err(ProtocolErrorKind::InvalidPayloadSize(size))
            } else {
                Ok((t, size))
            }
        },
    }
}

pub open spec fn producer_header_outcome(r: Result<(ProducerMessageType, u32), ProtocolError>) -> Result<
    (ProducerMessageType, u32),
    ProtocolErrorKind,
> {
    match r {
        Ok(h) => Ok(h),
        Err(e) => Err(e.kind()),
    }
}

/// Whether `frame` holds exactly the bytes a reader takes off the stream for
/// one producer frame: the type byte alone when it names no type, the five
/// header bytes when the size is over the limit, and otherwise the header
/// followed by as many payload bytes as the header declares.
pub open spec fn producer_frame_extent(frame: Seq<u8>) -> bool {
    &&& frame.len() >= 1
    &&& match producer_type_from_byte(frame[0]) {
        None => frame.len() == 1,
        Some(_) => frame.len() >= 5 && {
            let size = spec_u32_from_le_bytes(frame.subrange(1, 5));
            if size > MAX_PAYLOAD_SIZE {
                frame.len() == 5
            } else {
                frame.len() == 5 + size
            }
        },
    }
}

/// Decodes the header of a producer frame: the type byte and the four bytes of
/// the little-endian payload size. Refused when the byte names no type, or
/// when the size is over [`MAX_PAYLOAD_SIZE`].
pub fn decode_producer_header(type_byte: u8, size_bytes: &[u8]) -> (r: Result<(ProducerMessageType, u32), ProtocolError>)
    requires
        size_bytes@.len() == 4,
    ensures
        producer_header_outcome(r) == producer_header(type_byte, size_bytes@),
{
    let t = match ProducerMessageType::try_from(type_byte) {
        Ok(t) => t,
        Err(e) => return Err(e),
    };
    let size = u32_from_le_bytes(size_bytes);
    if size > MAX_PAYLOAD_SIZE {
        return Err(ProtocolError::InvalidPayloadSize(size));
    }
    Ok((t, size))
}

/// Binary protocol connection for producers.
pub struct ProducerConnection<T> {
    stream: T,
    sent: Ghost<Seq<u8>>,
    received: Ghost<Seq<u8>>,
}

impl<T> ProducerConnection<T> {
    /// The underlying stream.
    pub closed spec fn stream(&self) -> T {
        self.stream
    }

    /// Every byte this connection has handed to the stream's `write_all`,
    /// in order, since it was made.
    pub closed spec fn sent(&self) -> Seq<u8> {
        self.sent@
    }

    /// Every byte this connection has taken from the stream's `read_exact`,
    /// in order, since it was made.
    pub closed spec fn received(&self) -> Seq<u8> {
        self.received@
    }
}

impl<T: std::io::Read + std::io::Write> ProducerConnection<T> {
    pub fn new(stream: T) -> (r: Self)
        ensures
            r.stream() == stream,
            r.sent() == Seq::<u8>::empty(),
            r.received() == Seq::<u8>::empty(),
    {
        Self { stream, sent: Ghost(Seq::empty()), received: Ghost(Seq::empty()) }
    }

    /// Reads one frame from the stream and decodes it: one type byte, then
    /// (when it names a type) the four size bytes, then (when the header is
    /// accepted by [`decode_producer_header`]) exactly as many payload bytes as
    /// the header declares. The bytes that the stream's `read_exact` hands
    /// out are added to [`ProducerConnection::received`]; the outcome is what
    /// [`decode_producer_frame`] makes of them, and unless the stream failed
    /// they are exactly one frame's extent (a read that fails counts as the
    /// stream ending there).
    pub fn read_message(&mut self) -> (r: Result<ProducerMessage, ProtocolError>)
        ensures
            final(self).sent() == old(self).sent(),
            exists|frame: Seq<u8>|
                final(self).received() == old(self).received() + frame && #[trigger] decode_producer_frame(frame)
                    == producer_outcome(r) && (producer_outcome(r) != Err::<ProducerMessageView, ProtocolErrorKind>(
                    ProtocolErrorKind::Io,
                ) ==> producer_frame_extent(frame)),
    {
        let ghost start = self.received@;
        let type_byte = match read_exact_vec(&mut self.stream, 1) {
            Ok(v) => v,
            Err(e) => {
                let r = Err(ProtocolError::Io(e));
                assert(self.received@ =~= start + seq![]);
                assert(decode_producer_frame(seq![]) == producer_outcome(r));
                return r;
            },
        };
        proof {
            self.received = Ghost(self.received@ + type_byte@);
        }
        match ProducerMessageType::try_from(type_byte[0]) {
            Ok(_) => {},
            Err(e) => {
                let r = Err(e);
                assert(decode_producer_frame(type_byte@) == producer_outcome(r));
                return r;
            },
        }
        let size_bytes = match read_exact_vec(&mut self.stream, 4) {
            Ok(v) => v,
            Err(e) => {
                let r = Err(ProtocolError::Io(e));
                assert(decode_producer_frame(type_byte@) == producer_outcome(r));
                return r;
            },
        };
        let ghost header = type_byte@ + size_bytes@;
        proof {
            self.received = Ghost(start + header);
        }
        assert(header.subrange(1, 5) =~= size_bytes@);
        let (message_type, payload_size) = match decode_producer_header(type_byte[0], size_bytes.as_slice()) {
            Ok(h) => h,
            Err(e) => {
                let r = Err(e);
                assert(decode_producer_frame(header) == producer_outcome(r));
                assert(producer_frame_extent(header));
                return r;
            },
        };
        let payload = if payload_size > 0 {
            match read_exact_vec(&mut self.stream, payload_size as usize) {
                Ok(v) => v,
                Err(e) => {
                    let r = Err(ProtocolError::Io(e));
                    assert(decode_producer_frame(header) == producer_outcome(r));
                    return r;
                },
            }
        } else {
            Vec::new()
        };
        let ghost frame = header + payload@;
        proof {
            self.received = Ghost(start + frame);
        }
        let r = ProducerMessage::from_bytes(message_type, payload.as_slice());
        assert(frame.subrange(1, 5) =~= size_bytes@);
        assert(frame.subrange(5, 5 + payload_size) =~= payload@);
        assert(decode_producer_frame(frame) == producer_outcome(r));
        assert(producer_frame_extent(frame));
        r
    }

    /// Hands the frame of `message`, as [`ProducerMessage::to_bytes`] makes it,
    /// to the stream's `write_all`, and records it in
    /// [`ProducerConnection::sent`]. Whether the bytes reach the stream, and
    /// whether the call succeeds, is up to the stream; nothing here states
    /// it. The only error is an I/O error.
    pub fn write_message(&mut self, message: &ProducerMessage) -> (r: Result<(), ProtocolError>)
        ensures
            final(self).sent() == old(self).sent() + producer_frame(message@),
            final(self).received() == old(self).received(),
            r matches Err(e) ==> e.kind() == ProtocolErrorKind::Io,
    {
        let bytes = message.to_bytes()?;
        proof {
            self.sent = Ghost(self.sent@ + bytes@);
        }
        match write_all_bytes(&mut self.stream, bytes.as_slice()) {
            Ok(()) => Ok(()),
            Err(e) => Err(ProtocolError::Io(e)),
        }
    }
}

// ---------------------------------------------------------------------------
// Laws
// ---------------------------------------------------------------------------

proof fn lemma_len_field_small(n: int)
    requires
        0 <= n < u32_modulus(),
    ensures
        len_field(n) == n,
{
    vstd::arithmetic::div_mod::lemma_small_mod(n as nat, u32_modulus() as nat);
}

/// Every consumer message type survives the trip through its byte.
pub proof fn lemma_consumer_type_byte_roundtrip(t: ConsumerMessageType)
    ensures
        consumer_type_from_byte(t.spec_byte()) == Some(t),
{
}

/// Every producer message type survives the trip through its byte.
pub proof fn lemma_producer_type_byte_roundtrip(t: ProducerMessageType)
    ensures
        producer_type_from_byte(t.spec_byte()) == Some(t),
{
}

/// Decoding the payload of a consumer message gives the message back, when
/// the payload is within the size limit.
pub proof fn lemma_consumer_payload_roundtrip(m: ConsumerMessageView)
    requires
        consumer_payload(m).len() <= MAX_PAYLOAD_SIZE,
    ensures
        decode_consumer_payload(consumer_type_of(m), consumer_payload(m)) == Ok::<
            ConsumerMessageView,
            ProtocolErrorKind,
        >(m),
{
    lemma_auto_spec_u32_to_from_le_bytes();
    lemma_auto_spec_u64_to_from_le_bytes();
    let p = consumer_payload(m);
    match m {
        ConsumerMessageView::Error { message } => {},
        ConsumerMessageView::Audio { data, speech_detected, timestamp } => {
            lemma_len_field_small(data.len() as int);
            assert(p.subrange(0, 8) =~= spec_u64_to_le_bytes(timestamp));
            assert(p.subrange(9, 13) =~= spec_u32_to_le_bytes(data.len() as u32));
            assert(p.subrange(13, 13 + data.len() as int) =~= data);
        },
        ConsumerMessageView::WakewordDetected { model, timestamp, spotify_was_paused } => {
            let mb = encode_utf8(model);
            lemma_len_field_small(mb.len() as int);
            assert(p.subrange(0, 8) =~= spec_u64_to_le_bytes(timestamp));
            assert(p.subrange(9, 13) =~= spec_u32_to_le_bytes(mb.len() as u32));
            assert(p.subrange(13, 13 + mb.len() as int) =~= mb);
        },
    }
}

/// Reading a consumer frame back from a stream that holds the frame of `m`,
/// followed by anything at all, gives `m`, when its payload is within the
/// size limit.
pub proof fn lemma_consumer_frame_roundtrip(m: ConsumerMessageView, rest: Seq<u8>)
    requires
        consumer_payload(m).len() <= MAX_PAYLOAD_SIZE,
    ensures
        decode_consumer_frame(consumer_frame(m) + rest) == Ok::<ConsumerMessageView, ProtocolErrorKind>(m),
{
    lemma_auto_spec_u32_to_from_le_bytes();
    lemma_consumer_payload_roundtrip(m);
    let p = consumer_payload(m);
    let f = consumer_frame(m) + rest;
    lemma_len_field_small(p.len() as int);
    assert(f.subrange(1, 5) =~= spec_u32_to_le_bytes(p.len() as u32));
    assert(f.subrange(5, 5 + p.len() as int) =~= p);
}

/// Decoding the payload of a producer message gives the message back, when
/// the payload is within the size limit.
pub proof fn lemma_producer_payload_roundtrip(m: ProducerMessageView)
    requires
        producer_payload(m).len() <= MAX_PAYLOAD_SIZE,
    ensures
        decode_producer_payload(producer_type_of(m), producer_payload(m)) == Ok::<
            ProducerMessageView,
            ProtocolErrorKind,
        >(m),
{
    lemma_auto_spec_u64_to_from_le_bytes();
}

/// Reading a producer frame back from a stream that holds the frame of `m`,
/// followed by anything at all, gives `m`, when its payload is within the
/// size limit.
pub proof fn lemma_producer_frame_roundtrip(m: ProducerMessageView, rest: Seq<u8>)
    requires
        producer_payload(m).len() <= MAX_PAYLOAD_SIZE,
    ensures
        decode_producer_frame(producer_frame(m) + rest) == Ok::<ProducerMessageView, ProtocolErrorKind>(m),
{
    lemma_auto_spec_u32_to_from_le_bytes();
    lemma_auto_spec_u64_to_from_le_bytes();
    lemma_producer_payload_roundtrip(m);
    let p = producer_payload(m);
    let f = producer_frame(m) + rest;
    lemma_len_field_small(p.len() as int);
    assert(f.subrange(1, 5) =~= spec_u32_to_le_bytes(p.len() as u32));
    assert(f.subrange(5, 5 + p.len() as int) =~= p);
}

/// Frames follow one another: reading the first frame off the concatenation
/// of two frames consumes exactly the first, so the rest starts at the second.
pub proof fn lemma_consumer_frame_length(m: ConsumerMessageView)
    requires
        consumer_payload(m).len() <= MAX_PAYLOAD_SIZE,
    ensures
        consumer_frame(m).len() == 5 + consumer_payload(m).len(),
        spec_u32_from_le_bytes(consumer_frame(m).subrange(1, 5)) == consumer_payload(m).len(),
{
    lemma_auto_spec_u32_to_from_le_bytes();
    let p = consumer_payload(m);
    lemma_len_field_small(p.len() as int);
    assert(consumer_frame(m).subrange(1, 5) =~= spec_u32_to_le_bytes(p.len() as u32));
}

/// A reader on a stream that holds the frame of `m`, followed by anything
/// at all, takes off exactly that frame: the only prefix of the stream's
/// bytes with the extent of one frame is the frame of `m`.
pub proof fn lemma_consumer_frame_extent_unique(m: ConsumerMessageView, rest: Seq<u8>, frame: Seq<u8>)
    requires
        consumer_payload(m).len() <= MAX_PAYLOAD_SIZE,
        frame.len() <= (consumer_frame(m) + rest).len(),
        (consumer_frame(m) + rest).subrange(0, frame.len() as int) == frame,
        consumer_frame_extent(frame),
    ensures
        frame == consumer_frame(m),
        consumer_frame_extent(consumer_frame(m)),
{
    let f = consumer_frame(m) + rest;
    let g = consumer_frame(m);
    lemma_consumer_type_byte_roundtrip(consumer_type_of(m));
    lemma_consumer_frame_length(m);
    assert(frame[0] == f[0]);
    assert(f[0] == g[0]);
    assert(frame.subrange(1, 5) =~= g.subrange(1, 5)) by {
        assert forall|i: int| 0 <= i < 4 implies frame.subrange(1, 5)[i] == g.subrange(1, 5)[i] by {
            assert(frame[1 + i] == f[1 + i]);
        }
    }
    assert(frame =~= g) by {
        assert forall|i: int| 0 <= i < frame.len() implies frame[i] == g[i] by {
            assert(frame[i] == f[i]);
        }
    }
}

/// The frame of a producer message is its five header bytes and its
/// payload, and the header declares the payload's length.
pub proof fn lemma_producer_frame_length(m: ProducerMessageView)
    requires
        producer_payload(m).len() <= MAX_PAYLOAD_SIZE,
    ensures
        producer_frame(m).len() == 5 + producer_payload(m).len(),
        spec_u32_from_le_bytes(producer_frame(m).subrange(1, 5)) == producer_payload(m).len(),
{
    lemma_auto_spec_u32_to_from_le_bytes();
    let p = producer_payload(m);
    lemma_len_field_small(p.len() as int);
    assert(producer_frame(m).subrange(1, 5) =~= spec_u32_to_le_bytes(p.len() as u32));
}

/// A reader on a stream that holds the frame of `m`, followed by anything
/// at all, takes off exactly that frame: the only prefix of the stream's
/// bytes with the extent of one frame is the frame of `m`.
pub proof fn lemma_producer_frame_extent_unique(m: ProducerMessageView, rest: Seq<u8>, frame: Seq<u8>)
    requires
        producer_payload(m).len() <= MAX_PAYLOAD_SIZE,
        frame.len() <= (producer_frame(m) + rest).len(),
        (producer_frame(m) + rest).subrange(0, frame.len() as int) == frame,
        producer_frame_extent(frame),
    ensures
        frame == producer_frame(m),
        producer_frame_extent(producer_frame(m)),
{
    let f = producer_frame(m) + rest;
    let g = producer_frame(m);
    lemma_producer_type_byte_roundtrip(producer_type_of(m));
    lemma_producer_frame_length(m);
    assert(frame[0] == f[0]);
    assert(f[0] == g[0]);
    assert(frame.subrange(1, 5) =~= g.subrange(1, 5)) by {
        assert forall|i: int| 0 <= i < 4 implies frame.subrange(1, 5)[i] == g.subrange(1, 5)[i] by {
            assert(frame[1 + i] == f[1 + i]);
        }
    }
    assert(frame =~= g) by {
        assert forall|i: int| 0 <= i < frame.len() implies frame[i] == g[i] by {
            assert(frame[i] == f[i]);
        }
    }
}

} // verus!
