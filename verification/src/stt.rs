//! Speech-to-text: errors, results, and the decisions of a streaming
//! transcription session.
//!
//! The WebSocket session itself is network I/O and stays outside the
//! library: it hands each receive from the speech channel and each server
//! message to the collectors here, and carries out what they decide.
use vstd::prelude::*;
use std::collections::HashMap;
use crate::speech_producer::events::SpeechEvent;
use crate::text::{str_eq, string_of};

verus! {

/// Speech chunks sent to the service in one message at most.
pub const MAX_CHUNKS_PER_BATCH: usize = 12;

/// A transcription fails when the server stays silent longer than this.
pub const SERVER_SILENCE_LIMIT_MS: u128 = 10000;

#[verifier::external_type_specification]
#[verifier::external_body]
pub struct ExWebSocketError(tokio_tungstenite::tungstenite::Error);

#[verifier::external_type_specification]
#[verifier::external_body]
pub struct ExUrlParseError(url::ParseError);

#[derive(Debug)]
pub enum STTError {
    WebSocket(tokio_tungstenite::tungstenite::Error),
    UrlParse(url::ParseError),
    ApiError { message: String },
    AudioFormat(String),
    ParseError(String),
    Streaming(String),
}

impl From<tokio_tungstenite::tungstenite::Error> for STTError {
    fn from(err: tokio_tungstenite::tungstenite::Error) -> (r: Self) {
        STTError::WebSocket(err)
    }
}

impl vstd::std_specs::convert::FromSpecImpl<tokio_tungstenite::tungstenite::Error> for STTError {
    open spec fn obeys_from_spec() -> bool {
        true
    }

    open spec fn from_spec(v: tokio_tungstenite::tungstenite::Error) -> STTError {
        STTError::WebSocket(v)
    }
}

impl From<url::ParseError> for STTError {
    fn from(err: url::ParseError) -> (r: Self) {
        STTError::UrlParse(err)
    }
}

impl vstd::std_specs::convert::FromSpecImpl<url::ParseError> for STTError {
    open spec fn obeys_from_spec() -> bool {
        true
    }

    open spec fn from_spec(v: url::ParseError) -> STTError {
        STTError::UrlParse(v)
    }
}

#[derive(Debug, Clone)]
pub struct STTResponse {
    pub text: String,
    pub language: Option<String>,
    pub segments: HashMap<u32, String>,
}

/// What one attempt to receive from the speech channel gave.
#[derive(Debug, Clone, Copy, PartialEq, Eq, Structural)]
pub enum SpeechReceive {
    /// A chunk with its speech event.
    Chunk(SpeechEvent),
    /// Nothing is waiting.
    Empty,
    /// The receiver fell behind and missed this many chunks.
    Lagged(u64),
    /// The channel is closed.
    Closed,
}

/// Collects the speech chunks of one batch: speech is taken until the
/// batch holds [`MAX_CHUNKS_PER_BATCH`] chunks or nothing is waiting; the
/// end of speech or a closed channel also ends the batch and asks for the
/// final checkpoint. A lagging receiver just goes on.
pub struct AudioBatch {
    count: usize,
    checkpoint: bool,
    done: bool,
}

impl AudioBatch {
    #[verifier::type_invariant]
    spec fn inv(self) -> bool {
        self.count <= MAX_CHUNKS_PER_BATCH
    }

    /// Chunks taken into the batch.
    pub closed spec fn taken(&self) -> nat {
        self.count as nat
    }

    /// Whether the final checkpoint is to be sent after the batch.
    pub closed spec fn wants_checkpoint(&self) -> bool {
        self.checkpoint
    }

    /// Whether receiving stopped before the batch was full.
    pub closed spec fn stopped(&self) -> bool {
        self.done
    }

    pub fn new() -> (r: Self)
        ensures
            r.taken() == 0,
            !r.wants_checkpoint(),
            !r.stopped(),
    {
        Self { count: 0, checkpoint: false, done: false }
    }

    /// Whether to receive again.
    pub fn wants_more(&self) -> (b: bool)
        ensures
            b == (!self.stopped() && self.taken() < MAX_CHUNKS_PER_BATCH),
    {
        !self.done && self.count < MAX_CHUNKS_PER_BATCH
    }

    /// Whether the final checkpoint is to be sent.
    pub fn checkpoint(&self) -> (b: bool)
        ensures
            b == self.wants_checkpoint(),
    {
        self.checkpoint
    }

    /// Takes what a receive gave; returns whether the chunk's audio joins
    /// the batch.
    pub fn on_receive(&mut self, r: SpeechReceive) -> (take: bool)
        requires
            !old(self).stopped() && old(self).taken() < MAX_CHUNKS_PER_BATCH,
        ensures
            take == (r matches SpeechReceive::Chunk(e) && e != SpeechEvent::StoppedSpeaking),
            final(self).taken() == old(self).taken() + if take {
                1nat
            } else {
                0nat
            },
            final(self).wants_checkpoint() == (old(self).wants_checkpoint() || r
                == SpeechReceive::Chunk(SpeechEvent::StoppedSpeaking) || r == SpeechReceive::Closed),
            final(self).stopped() == (r == SpeechReceive::Chunk(SpeechEvent::StoppedSpeaking) || r
                == SpeechReceive::Empty || r == SpeechReceive::Closed),
    {
        match r {
            SpeechReceive::Chunk(e) => {
                match e {
                    SpeechEvent::StoppedSpeaking => {
                        self.checkpoint = true;
                        self.done = true;
                        false
                    },
                    _ => {
                        self.count = self.count + 1;
                        true
                    },
                }
            },
            SpeechReceive::Empty => {
                self.done = true;
                false
            },
            SpeechReceive::Lagged(_) => false,
            SpeechReceive::Closed => {
                self.checkpoint = true;
                self.done = true;
                false
            },
        }
    }
}

/// A message from the transcription service, as far as the session goes.
pub enum ServerMessage {
    /// Text that is not JSON: ignored.
    Unparsable,
    /// The acknowledgement of the final checkpoint.
    FinalCheckpoint,
    /// A transcription update with its `text` field, if it has one.
    Update(Option<String>),
    /// A binary message or another kind: ignored.
    Other,
    /// The server closed the connection.
    Closed,
    /// The connection failed.
    Failed,
}

/// The streaming transcription endpoint.
pub const STREAMING_URL: &'static str =
    "wss://audio-streaming.us-virginia-1.direct.fireworks.ai/v1/audio/transcriptions/streaming";

/// What a JSON text gives for a string field: `None` when the text is not
/// JSON; otherwise the field's value, if it is there and is a string.
pub uninterp spec fn json_str_at(text: Seq<char>, key: Seq<char>) -> Option<Option<Seq<char>>>;

/// The URL `base` with `pairs` appended to its query in
/// `application/x-www-form-urlencoded` form; `None` when `base` is no URL.
pub uninterp spec fn url_with_query(base: Seq<char>, pairs: Seq<(Seq<char>, Seq<char>)>) -> Option<Seq<char>>;

pub open spec fn opt_str_view(o: Option<String>) -> Option<Seq<char>> {
    match o {
        Some(s) => Some(s@),
        None => None,
    }
}

pub open spec fn opt_opt_str_view(o: Option<Option<String>>) -> Option<Option<Seq<char>>> {
    match o {
        Some(x) => Some(opt_str_view(x)),
        None => None,
    }
}

pub open spec fn opt_ref_view(o: Option<&str>) -> Option<Seq<char>> {
    match o {
        Some(s) => Some(s@),
        None => None,
    }
}

pub open spec fn pair_views(pairs: Seq<(String, String)>) -> Seq<(Seq<char>, Seq<char>)> {
    pairs.map_values(|p: (String, String)| (p.0@, p.1@))
}

/// Parses the text with `serde_json::from_str` and reads a field with
/// `Value::get` and `Value::as_str`. Claimed: the result is
/// [`json_str_at`] of the text and key.
#[verifier::external_body]
pub(crate) fn json_str_field(text: &str, key: &str) -> (r: Option<Option<String>>)
    ensures
        opt_opt_str_view(r) == json_str_at(text@, key@),
{
    match serde_json::from_str::<serde_json::Value>(text) {
        Ok(v) => Some(v.get(key).and_then(|x| x.as_str()).map(|x| x.to_string())),
        Err(_) => None,
    }
}

/// Parses `base` with `url::Url::parse` and appends `pairs` to its query
/// with `query_pairs_mut().extend_pairs`. Claimed: the result is
/// [`url_with_query`] of the base and the pairs, and the parse error
/// comes exactly when that is `None`.
#[verifier::external_body]
fn url_with_pairs(base: &str, pairs: &Vec<(String, String)>) -> (r: Result<String, url::ParseError>)
    ensures
        r matches Ok(u) ==> url_with_query(base@, pair_views(pairs@)) == Some(u@),
        r is Err ==> url_with_query(base@, pair_views(pairs@)) is None,
{
    let mut url = url::Url::parse(base)?;
    url.query_pairs_mut().extend_pairs(pairs.iter().map(|p| (p.0.as_str(), p.1.as_str())));
    Ok(url.as_str().to_string())
}

pub open spec fn optional_pair(key: Seq<char>, value: Option<Seq<char>>) -> Seq<(Seq<char>, Seq<char>)> {
    match value {
        Some(v) => seq![(key, v)],
        None => Seq::empty(),
    }
}

/// The query of a streaming session: the language, temperature and prompt
/// when given, then the response format and the API key.
pub open spec fn stt_query_pairs(
    language: Option<Seq<char>>,
    temperature: Option<Seq<char>>,
    prompt: Option<Seq<char>>,
    api_key: Seq<char>,
) -> Seq<(Seq<char>, Seq<char>)> {
    optional_pair("language"@, language) + optional_pair("temperature"@, temperature) + optional_pair(
        "prompt"@,
        prompt,
    ) + seq![("response_format"@, "verbose_json"@), ("Authorization"@, api_key)]
}

fn push_optional_pair(pairs: &mut Vec<(String, String)>, key: &str, value: Option<&str>)
    ensures
        pair_views(final(pairs)@) == pair_views(old(pairs)@) + optional_pair(key@, opt_ref_view(value)),
{
    if let Some(v) = value {
        pairs.push((string_of(key), string_of(v)));
        assert(pair_views(pairs@) =~= pair_views(old(pairs)@) + optional_pair(key@, opt_ref_view(value)));
    } else {
        assert(pair_views(pairs@) =~= pair_views(old(pairs)@) + optional_pair(key@, opt_ref_view(value)));
    }
}

/// The URL of a streaming session: [`STREAMING_URL`] with the session's
/// query. `temperature` is the temperature already written out as text.
pub fn streaming_url(language: Option<&str>, temperature: Option<&str>, prompt: Option<&str>, api_key: &str) -> (r: Result<
    String,
    STTError,
>)
    ensures
        ({
            let u = url_with_query(
                STREAMING_URL@,
                stt_query_pairs(opt_ref_view(language), opt_ref_view(temperature), opt_ref_view(prompt), api_key@),
            );
            &&& u matches Some(s) ==> (r matches Ok(t) && t@ == s)
            &&& u is None ==> r matches Err(STTError::UrlParse(_))
        }),
{
    let mut pairs: Vec<(String, String)> = Vec::new();
    assert(pair_views(pairs@) =~= Seq::<(Seq<char>, Seq<char>)>::empty());
    push_optional_pair(&mut pairs, "language", language);
    push_optional_pair(&mut pairs, "temperature", temperature);
    push_optional_pair(&mut pairs, "prompt", prompt);
    let ghost before = pairs@;
    pairs.push((string_of("response_format"), string_of("verbose_json")));
    pairs.push((string_of("Authorization"), string_of(api_key)));
    assert(pair_views(pairs@) =~= pair_views(before) + seq![
        ("response_format"@, "verbose_json"@),
        ("Authorization"@, api_key@),
    ]);
    match url_with_pairs(STREAMING_URL, &pairs) {
        Ok(u) => Ok(u),
        Err(e) => Err(STTError::UrlParse(e)),
    }
}

/// What a text message from the service means: not JSON, the
/// acknowledgement of the final checkpoint (a `checkpoint_id` of
/// `"final"`), or else an update, whose `text` field is what reading the
/// text as a streaming response gave (`response_text`, `None` when it could
/// not be read as one).
pub open spec fn server_message_is(
    r: ServerMessage,
    checkpoint: Option<Option<Seq<char>>>,
    response_text: Option<Option<Seq<char>>>,
) -> bool {
    match checkpoint {
        None => r is Unparsable,
        Some(c) => if c == Some("final"@) {
            r is FinalCheckpoint
        } else {
            match response_text {
                None => r is Other,
                Some(t) => r matches ServerMessage::Update(u) && opt_str_view(u) == t,
            }
        },
    }
}

/// Classifies a text message from the service. `response_text` is what
/// reading the text as a streaming response gave: `None` when it is not
/// one, otherwise its `text` field.
pub fn classify_server_text(text: &str, response_text: Option<Option<String>>) -> (r: ServerMessage)
    ensures
        server_message_is(r, json_str_at(text@, "checkpoint_id"@), opt_opt_str_view(response_text)),
{
    match json_str_field(text, "checkpoint_id") {
        None => ServerMessage::Unparsable,
        Some(c) => {
            let is_final = match &c {
                Some(id) => str_eq(id.as_str(), "final"),
                None => false,
            };
            if is_final {
                ServerMessage::FinalCheckpoint
            } else {
                match response_text {
                    None => ServerMessage::Other,
                    Some(t) => ServerMessage::Update(t),
                }
            }
        },
    }
}

pub enum ServerMessageView {
    Unparsable,
    FinalCheckpoint,
    Update(Option<Seq<char>>),
    Other,
    Closed,
    Failed,
}

impl View for ServerMessage {
    type V = ServerMessageView;

    open spec fn view(&self) -> ServerMessageView {
        match self {
            ServerMessage::Unparsable => ServerMessageView::Unparsable,
            ServerMessage::FinalCheckpoint => ServerMessageView::FinalCheckpoint,
            ServerMessage::Update(t) => ServerMessageView::Update(opt_str_view(*t)),
            ServerMessage::Other => ServerMessageView::Other,
            ServerMessage::Closed => ServerMessageView::Closed,
            ServerMessage::Failed => ServerMessageView::Failed,
        }
    }
}

/// What the session does after a message.
#[derive(Debug, Clone, Copy, PartialEq, Eq, Structural)]
pub enum TranscriptStep {
    /// Wait for the next message.
    Continue,
    /// Stop listening; see [`TranscriptCollector::finish`].
    Stop,
}

/// The plain content of a [`TranscriptCollector`].
pub struct CollectorView {
    pub text: Seq<char>,
    pub acknowledged: bool,
    pub stalled: bool,
}

/// A collector that has seen nothing.
pub open spec fn initial_collector() -> CollectorView {
    CollectorView { text: Seq::empty(), acknowledged: false, stalled: false }
}

/// Whether a message that came after `quiet_ms` of silence ends listening.
pub open spec fn stops_session(quiet_ms: u128, m: ServerMessageView) -> bool {
    quiet_ms > SERVER_SILENCE_LIMIT_MS || m is FinalCheckpoint || m is Closed || m is Failed
}

/// The transcript after an update: a non-empty text replaces it.
pub open spec fn updated_text(t: Seq<char>, m: ServerMessageView) -> Seq<char> {
    match m {
        ServerMessageView::Update(Some(u)) => if u.len() > 0 {
            u
        } else {
            t
        },
        _ => t,
    }
}

/// A collector after one message, and whether listening goes on.
pub open spec fn collector_step(v: CollectorView, quiet_ms: u128, m: ServerMessageView) -> (CollectorView, TranscriptStep) {
    if quiet_ms > SERVER_SILENCE_LIMIT_MS {
        (CollectorView { stalled: true, ..v }, TranscriptStep::Stop)
    } else {
        (
            CollectorView {
                text: updated_text(v.text, m),
                acknowledged: v.acknowledged || m is FinalCheckpoint,
                ..v
            },
            if stops_session(quiet_ms, m) {
                TranscriptStep::Stop
            } else {
                TranscriptStep::Continue
            },
        )
    }
}

/// A collector after a run of messages, each with the silence before it,
/// up to and including the first one that ends listening.
pub open spec fn collector_run(v: CollectorView, ms: Seq<(u128, ServerMessageView)>) -> CollectorView
    decreases ms.len(),
{
    if ms.len() == 0 {
        v
    } else {
        let (w, step) = collector_step(v, ms[0].0, ms[0].1);
        if step == TranscriptStep::Stop {
            w
        } else {
            collector_run(w, ms.drop_first())
        }
    }
}

/// Where the first message that ends listening stands (the length when
/// none does).
pub open spec fn first_stop(ms: Seq<(u128, ServerMessageView)>) -> nat
    decreases ms.len(),
{
    if ms.len() == 0 {
        0
    } else if stops_session(ms[0].0, ms[0].1) {
        0
    } else {
        1 + first_stop(ms.drop_first())
    }
}

/// The transcript `t` after a run of updates.
pub open spec fn latest_text(t: Seq<char>, ms: Seq<(u128, ServerMessageView)>) -> Seq<char>
    decreases ms.len(),
{
    if ms.len() == 0 {
        t
    } else {
        latest_text(updated_text(t, ms[0].1), ms.drop_first())
    }
}

proof fn lemma_collector_run(v: CollectorView, ms: Seq<(u128, ServerMessageView)>)
    ensures
        first_stop(ms) <= ms.len(),
        ({
            let r = collector_run(v, ms);
            let fs = first_stop(ms) as int;
            &&& r.text == latest_text(v.text, ms.take(fs))
            &&& r.acknowledged == (v.acknowledged || (fs < ms.len() && ms[fs].0 <= SERVER_SILENCE_LIMIT_MS
                && ms[fs].1 is FinalCheckpoint))
            &&& r.stalled == (v.stalled || (fs < ms.len() && ms[fs].0 > SERVER_SILENCE_LIMIT_MS))
        }),
    decreases ms.len(),
{
    if ms.len() == 0 {
        assert(ms.take(0) =~= Seq::<(u128, ServerMessageView)>::empty());
    } else if stops_session(ms[0].0, ms[0].1) {
        assert(ms.take(0) =~= Seq::<(u128, ServerMessageView)>::empty());
    } else {
        let (w, step) = collector_step(v, ms[0].0, ms[0].1);
        let rest = ms.drop_first();
        lemma_collector_run(w, rest);
        let fs = first_stop(ms) as int;
        assert(ms.take(fs).drop_first() =~= rest.take(fs - 1));
        assert(ms.take(fs)[0] == ms[0]);
        if fs < ms.len() {
            assert(rest[fs - 1] == ms[fs]);
        }
    }
}

/// A transcription session, over any run of server messages each with the
/// silence before it: the final checkpoint is acknowledged, and the
/// session succeeds, exactly when the first message that ends listening is
/// that acknowledgement, arriving within the silence limit; the session
/// stalls exactly when that first message came after too long a silence;
/// and the transcript is the last non-empty update text before it (empty
/// when there was none).
pub proof fn lemma_transcript_session(ms: Seq<(u128, ServerMessageView)>)
    ensures
        ({
            let r = collector_run(initial_collector(), ms);
            let fs = first_stop(ms) as int;
            &&& (r.acknowledged && !r.stalled) == (fs < ms.len() && ms[fs].0 <= SERVER_SILENCE_LIMIT_MS
                && ms[fs].1 is FinalCheckpoint)
            &&& r.stalled == (fs < ms.len() && ms[fs].0 > SERVER_SILENCE_LIMIT_MS)
            &&& r.text == latest_text(Seq::empty(), ms.take(fs))
        }),
{
    lemma_collector_run(initial_collector(), ms);
}

/// Follows the server's messages: the latest non-empty transcription text
/// is the transcript, and the session succeeds only once the server
/// acknowledged the final checkpoint.
pub struct TranscriptCollector {
    transcript: String,
    acknowledged: bool,
    stalled: bool,
}

impl TranscriptCollector {
    /// The transcript so far.
    pub closed spec fn text(&self) -> Seq<char> {
        self.transcript@
    }

    /// Whether the final checkpoint was acknowledged.
    pub closed spec fn acknowledged(&self) -> bool {
        self.acknowledged
    }

    /// Whether the server was silent for too long.
    pub closed spec fn stalled(&self) -> bool {
        self.stalled
    }

    /// The collector's plain content.
    pub open spec fn state(&self) -> CollectorView {
        CollectorView { text: self.text(), acknowledged: self.acknowledged(), stalled: self.stalled() }
    }

    pub fn new() -> (r: Self)
        ensures
            r.text().len() == 0,
            !r.acknowledged(),
            !r.stalled(),
    {
        Self { transcript: String::new(), acknowledged: false, stalled: false }
    }

    /// A message that came `quiet_ms` milliseconds after the previous one
    /// (or after listening started).
    pub fn on_message(&mut self, quiet_ms: u128, message: ServerMessage) -> (step: TranscriptStep)
        ensures
            (final(self).state(), step) == collector_step(old(self).state(), quiet_ms, message@),
            quiet_ms > SERVER_SILENCE_LIMIT_MS ==> {
                &&& step == TranscriptStep::Stop
                &&& final(self).stalled()
                &&& final(self).text() == old(self).text()
                &&& final(self).acknowledged() == old(self).acknowledged()
            },
            quiet_ms <= SERVER_SILENCE_LIMIT_MS ==> final(self).stalled() == old(self).stalled(),
            quiet_ms <= SERVER_SILENCE_LIMIT_MS ==> step == match message {
                ServerMessage::FinalCheckpoint => TranscriptStep::Stop,
                ServerMessage::Closed => TranscriptStep::Stop,
                ServerMessage::Failed => TranscriptStep::Stop,
                _ => TranscriptStep::Continue,
            },
            quiet_ms <= SERVER_SILENCE_LIMIT_MS ==> final(self).acknowledged() == (old(self).acknowledged()
                || message is FinalCheckpoint),
            quiet_ms <= SERVER_SILENCE_LIMIT_MS && (message matches ServerMessage::Update(Some(t)) && t@.len()
                > 0) ==> (message matches ServerMessage::Update(Some(t)) && final(self).text() == t@),
            quiet_ms <= SERVER_SILENCE_LIMIT_MS && !(message matches ServerMessage::Update(Some(t)) && t@.len()
                > 0) ==> final(self).text() == old(self).text(),
    {
        if quiet_ms > SERVER_SILENCE_LIMIT_MS {
            self.stalled = true;
            return TranscriptStep::Stop;
        }
        match message {
            ServerMessage::FinalCheckpoint => {
                self.acknowledged = true;
                TranscriptStep::Stop
            },
            ServerMessage::Update(text) => {
                match text {
                    Some(t) => {
                        if !t.as_str().is_empty() {
                            self.transcript = t;
                        }
                    },
                    None => {},
                }
                TranscriptStep::Continue
            },
            ServerMessage::Closed | ServerMessage::Failed => TranscriptStep::Stop,
            ServerMessage::Unparsable | ServerMessage::Other => TranscriptStep::Continue,
        }
    }

    /// The outcome once listening stopped: the transcript if the final
    /// checkpoint was acknowledged; otherwise a streaming error that says
    /// why.
    pub fn finish(self) -> (r: Result<String, STTError>)
        ensures
            self.stalled() ==> (r matches Err(STTError::Streaming(m)) && m@ == "No response for 10 seconds"@),
            !self.stalled() && !self.acknowledged() ==> (r matches Err(STTError::Streaming(m)) && m@
                == "No final checkpoint acknowledgment"@),
            !self.stalled() && self.acknowledged() ==> (r matches Ok(t) && t@ == self.text()),
    {
        if self.stalled {
            Err(STTError::Streaming(string_of("No response for 10 seconds")))
        } else if !self.acknowledged {
            Err(STTError::Streaming(string_of("No final checkpoint acknowledgment")))
        } else {
            Ok(self.transcript)
        }
    }
}

} // verus!
