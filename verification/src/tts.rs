//! Text-to-speech types: errors, events, commands, voices and formats.
//!
//! Talking to the ElevenLabs service is network I/O and happens outside
//! the library.
use vstd::prelude::*;
use crate::audio_sink::AudioError;
use crate::text::{contains_str, push_str, str_contains, string_of};
use crate::stt::{json_str_at, json_str_field};

verus! {

#[derive(Debug, Clone)]
pub enum TTSError {
    ApiError { status: u16, message: String },
    WebSocket(String),
    Connection(String),
    Audio(AudioError),
    Cancelled,
}

impl From<AudioError> for TTSError {
    fn from(err: AudioError) -> (r: Self) {
        TTSError::Audio(err)
    }
}

impl vstd::std_specs::convert::FromSpecImpl<AudioError> for TTSError {
    open spec fn obeys_from_spec() -> bool {
        true
    }

    open spec fn from_spec(v: AudioError) -> TTSError {
        TTSError::Audio(v)
    }
}

#[derive(Debug)]
pub struct TTSResponse {
    pub audio_data: Vec<u8>,
    pub format: String,
}

#[derive(Debug, Clone)]
pub struct Voice {
    pub voice_id: String,
    pub name: String,
    pub category: Option<String>,
    pub description: Option<String>,
    pub preview_url: Option<String>,
}

impl Voice {
    /// Voice id of the preset "Rachel".
    pub fn rachel() -> (id: String)
        ensures
            id@ == "21m00Tcm4TlvDq8ikWAM"@,
    {
        string_of("21m00Tcm4TlvDq8ikWAM")
    }

    /// Voice id of the preset "Drew".
    pub fn drew() -> (id: String)
        ensures
            id@ == "29vD33N1CtxCmqQRPOHJ"@,
    {
        string_of("29vD33N1CtxCmqQRPOHJ")
    }

    /// Voice id of the preset "Clyde".
    pub fn clyde() -> (id: String)
        ensures
            id@ == "2EiwWnXFnvU5JabPnv8n"@,
    {
        string_of("2EiwWnXFnvU5JabPnv8n")
    }

    /// Voice id of the preset "Dave".
    pub fn dave() -> (id: String)
        ensures
            id@ == "CYw3kZ02Hs0563khs1Fj"@,
    {
        string_of("CYw3kZ02Hs0563khs1Fj")
    }

    /// Voice id of the preset "Fin".
    pub fn fin() -> (id: String)
        ensures
            id@ == "D38z5RcWu1voky8WS1ja"@,
    {
        string_of("D38z5RcWu1voky8WS1ja")
    }

    /// Voice id of the preset "Freya".
    pub fn freya() -> (id: String)
        ensures
            id@ == "jsCqWAovK2LkecY7zXl4"@,
    {
        string_of("jsCqWAovK2LkecY7zXl4")
    }

    /// Voice id of the preset "Grace".
    pub fn grace() -> (id: String)
        ensures
            id@ == "oWAxZDx7w5VEj9dCyTzz"@,
    {
        string_of("oWAxZDx7w5VEj9dCyTzz")
    }

    /// Voice id of the preset "Daniel".
    pub fn daniel() -> (id: String)
        ensures
            id@ == "onwK4e9ZLuTAKqWW03F9"@,
    {
        string_of("onwK4e9ZLuTAKqWW03F9")
    }
}

/// Output formats of the streaming service.
#[derive(Debug, Clone, Copy, PartialEq, Eq, Structural)]
pub enum AudioFormat {
    Pcm16000,
    Pcm22050,
    Pcm24000,
    Pcm44100,
    Mp3_44100_128,
}

impl AudioFormat {
    /// The service's name for the format.
    pub fn to_elevenlabs_format(&self) -> (s: &'static str)
        ensures
            s@ == match *self {
                AudioFormat::Pcm16000 => "pcm_16000"@,
                AudioFormat::Pcm22050 => "pcm_22050"@,
                AudioFormat::Pcm24000 => "pcm_24000"@,
                AudioFormat::Pcm44100 => "pcm_44100"@,
                AudioFormat::Mp3_44100_128 => "mp3_44100_128"@,
            },
    {
        match self {
            AudioFormat::Pcm16000 => "pcm_16000",
            AudioFormat::Pcm22050 => "pcm_22050",
            AudioFormat::Pcm24000 => "pcm_24000",
            AudioFormat::Pcm44100 => "pcm_44100",
            AudioFormat::Mp3_44100_128 => "mp3_44100_128",
        }
    }
}

#[derive(Debug, Clone)]
pub enum TTSEvent {
    StartedSpeaking,
    /// PCM samples ready for playback.
    AudioChunk(Vec<u8>),
    /// Playback finished (the LEDs follow this).
    FinishedSpeaking,
    Error(TTSError),
}

#[derive(Debug, Clone)]
pub enum TTSCommand {
    AddText(String),
    Finalize,
    Cancel,
}

/// The socket URL of one synthesis with the given voice and model, asking
/// for 16 kHz PCM.
pub fn synthesis_url(voice_id: &str, model: &str) -> (r: String)
    ensures
        r@ == "wss://api.elevenlabs.io/v1/text-to-speech/"@ + voice_id@ + "/stream-input?model_id="@ + model@
            + "&output_format=pcm_16000"@,
{
    let mut s = string_of("wss://api.elevenlabs.io/v1/text-to-speech/");
    push_str(&mut s, voice_id);
    push_str(&mut s, "/stream-input?model_id=");
    push_str(&mut s, model);
    push_str(&mut s, "&output_format=pcm_16000");
    s
}

/// The bytes that base64's standard engine (`general_purpose::STANDARD`:
/// standard alphabet, padding required) decodes from `text`; `None` when it
/// refuses the text.
pub uninterp spec fn base64_standard(text: Seq<char>) -> Option<Seq<u8>>;

/// Decodes `text` with `base64::engine::general_purpose::STANDARD`.
/// Claimed: the result is [`base64_standard`] of the text, `None` exactly
/// when the engine returns an error.
#[verifier::external_body]
fn decode_base64(text: &str) -> (r: Option<Vec<u8>>)
    ensures
        match r {
            Some(v) => base64_standard(text@) == Some(v@),
            None => base64_standard(text@) is None,
        },
{
    base64::Engine::decode(&base64::engine::general_purpose::STANDARD, text.as_bytes()).ok()
}

/// What came in while a synthesis waits on the service's socket.
pub enum TtsMessage {
    /// The synthesis was cancelled.
    Cancelled,
    /// A binary message: PCM audio.
    Binary(Vec<u8>),
    /// A text message.
    Text(String),
    /// The service closed the connection.
    Close,
    /// A ping, pong or raw frame.
    Control,
    /// The connection failed, with the error's text.
    Failed(String),
    /// The stream of messages ended.
    Ended,
}

pub enum TtsMessageView {
    Cancelled,
    Binary(Seq<u8>),
    Text(Seq<char>),
    Close,
    Control,
    Failed(Seq<char>),
    Ended,
}

impl View for TtsMessage {
    type V = TtsMessageView;

    open spec fn view(&self) -> TtsMessageView {
        match self {
            TtsMessage::Cancelled => TtsMessageView::Cancelled,
            TtsMessage::Binary(d) => TtsMessageView::Binary(d@),
            TtsMessage::Text(t) => TtsMessageView::Text(t@),
            TtsMessage::Close => TtsMessageView::Close,
            TtsMessage::Control => TtsMessageView::Control,
            TtsMessage::Failed(e) => TtsMessageView::Failed(e@),
            TtsMessage::Ended => TtsMessageView::Ended,
        }
    }
}

/// What a synthesis does with a message.
pub enum TtsAction {
    /// Write the audio to the sink and wait for the next message.
    Play(Vec<u8>),
    /// The audio field of a text message is not valid base64: fail with an
    /// audio error.
    InvalidAudio,
    /// Wait for the next message.
    Continue,
    /// Stop the sink, then fail with [`TTSError::Cancelled`].
    StopCancelled,
    /// The synthesis is complete.
    Done,
    /// Fail with an API error of status 400 carrying this text.
    ApiError(String),
    /// Fail with a WebSocket error carrying this text.
    WebSocketError(String),
}

pub enum TtsActionView {
    Play(Seq<u8>),
    InvalidAudio,
    Continue,
    StopCancelled,
    Done,
    ApiError(Seq<char>),
    WebSocketError(Seq<char>),
}

impl View for TtsAction {
    type V = TtsActionView;

    open spec fn view(&self) -> TtsActionView {
        match self {
            TtsAction::Play(d) => TtsActionView::Play(d@),
            TtsAction::InvalidAudio => TtsActionView::InvalidAudio,
            TtsAction::Continue => TtsActionView::Continue,
            TtsAction::StopCancelled => TtsActionView::StopCancelled,
            TtsAction::Done => TtsActionView::Done,
            TtsAction::ApiError(t) => TtsActionView::ApiError(t@),
            TtsAction::WebSocketError(t) => TtsActionView::WebSocketError(t@),
        }
    }
}

/// What a text message from the service asks for: any text that mentions
/// `error` is an API error; text with an `"audio"` key carries base64 audio
/// in that field, decoded with the standard alphabet (nothing is played
/// when it is not a JSON string there, and the synthesis fails when it is
/// not valid base64);
/// text with `"done"` ends the synthesis; anything else is skipped.
pub open spec fn tts_text_action(t: Seq<char>) -> TtsActionView {
    if str_contains(t, "error"@) {
        TtsActionView::ApiError(t)
    } else if str_contains(t, "\"audio\""@) {
        match json_str_at(t, "audio"@) {
            Some(Some(a)) => match base64_standard(a) {
                Some(d) => TtsActionView::Play(d),
                None => TtsActionView::InvalidAudio,
            },
            _ => TtsActionView::Continue,
        }
    } else if str_contains(t, "\"done\""@) {
        TtsActionView::Done
    } else {
        TtsActionView::Continue
    }
}

/// What a synthesis does with each message.
pub open spec fn tts_action_of(m: TtsMessageView) -> TtsActionView {
    match m {
        TtsMessageView::Cancelled => TtsActionView::StopCancelled,
        TtsMessageView::Binary(d) => TtsActionView::Play(d),
        TtsMessageView::Text(t) => tts_text_action(t),
        TtsMessageView::Close => TtsActionView::Done,
        TtsMessageView::Control => TtsActionView::Continue,
        TtsMessageView::Failed(e) => TtsActionView::WebSocketError(e),
        TtsMessageView::Ended => TtsActionView::Done,
    }
}

/// Decides what a synthesis does with one message from the service.
pub fn tts_step(msg: TtsMessage) -> (r: TtsAction)
    ensures
        r@ == tts_action_of(msg@),
{
    match msg {
        TtsMessage::Cancelled => TtsAction::StopCancelled,
        TtsMessage::Binary(d) => TtsAction::Play(d),
        TtsMessage::Text(t) => {
            if contains_str(t.as_str(), "error") {
                TtsAction::ApiError(t)
            } else if contains_str(t.as_str(), "\"audio\"") {
                match json_str_field(t.as_str(), "audio") {
                    Some(Some(a)) => match decode_base64(a.as_str()) {
                        Some(d) => TtsAction::Play(d),
                        None => TtsAction::InvalidAudio,
                    },
                    _ => TtsAction::Continue,
                }
            } else if contains_str(t.as_str(), "\"done\"") {
                TtsAction::Done
            } else {
                TtsAction::Continue
            }
        },
        TtsMessage::Close => TtsAction::Done,
        TtsMessage::Control => TtsAction::Continue,
        TtsMessage::Failed(e) => TtsAction::WebSocketError(e),
        TtsMessage::Ended => TtsAction::Done,
    }
}

/// Client of the ElevenLabs streaming API.
pub struct ElevenLabsStreamingTTS {
    api_key: String,
    base_url: String,
}

impl ElevenLabsStreamingTTS {
    pub closed spec fn spec_api_key(&self) -> Seq<char> {
        self.api_key@
    }

    pub closed spec fn spec_base_url(&self) -> Seq<char> {
        self.base_url@
    }

    pub fn new(api_key: String) -> (r: Self)
        ensures
            r.spec_api_key() == api_key@,
            r.spec_base_url() == "wss://api.elevenlabs.io/v1"@,
    {
        Self { api_key, base_url: string_of("wss://api.elevenlabs.io/v1") }
    }

    pub fn api_key(&self) -> (k: &str)
        ensures
            k@ == self.spec_api_key(),
    {
        self.api_key.as_str()
    }

    pub fn base_url(&self) -> (u: &str)
        ensures
            u@ == self.spec_base_url(),
    {
        self.base_url.as_str()
    }
}

} // verus!
