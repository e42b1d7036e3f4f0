//! Producer server types and the playback session: which stream is playing,
//! which was interrupted by a barge-in, and what happens to each chunk.
//!
//! The socket, the sink and the barge-in channel stay outside the library;
//! the server loop hands each happening to the session and acts on its
//! answer.
use vstd::prelude::*;
use crate::audio_sink::AudioSinkConfig;
use crate::protocol::{ProducerMessage, ProducerMessageView, ProtocolError};
use crate::text::string_of;

verus! {

#[derive(Debug)]
pub enum ProducerServerError {
    Io(std::io::Error),
    Protocol(ProtocolError),
    Audio(String),
    ProducerAlreadyConnected,
}

impl From<ProtocolError> for ProducerServerError {
    fn from(err: ProtocolError) -> (r: Self) {
        ProducerServerError::Protocol(err)
    }
}

impl vstd::std_specs::convert::FromSpecImpl<ProtocolError> for ProducerServerError {
    open spec fn obeys_from_spec() -> bool {
        true
    }

    open spec fn from_spec(v: ProtocolError) -> ProducerServerError {
        ProducerServerError::Protocol(v)
    }
}

/// Configuration for the producer server.
#[derive(Clone)]
pub struct ProducerServerConfig {
    pub bind_address: String,
    pub audio_sink_config: AudioSinkConfig,
}

impl Default for ProducerServerConfig {
    fn default() -> (r: Self)
        ensures
            r.bind_address@ == "127.0.0.1:8081"@,
            r.audio_sink_config.device_name is None,
    {
        Self { bind_address: string_of("127.0.0.1:8081"), audio_sink_config: AudioSinkConfig::default() }
    }
}

/// What a producer is told when another producer is already connected.
pub fn rejection_message() -> (m: ProducerMessage)
    ensures
        m@ == (ProducerMessageView::Error { message: "Producer already connected"@ }),
{
    ProducerMessage::Error { message: string_of("Producer already connected") }
}

/// What to do with a chunk of audio of some stream.
#[derive(Debug, Clone, Copy, PartialEq, Eq, Structural)]
pub enum PlayDecision {
    /// The stream was interrupted (or is older than one that was): drop it.
    Drop,
    /// A new stream starts with this chunk: drain stale barge-in signals, then play it.
    StartStream,
    /// The chunk continues the current stream: play it.
    Continue,
}

/// The plain content of a [`PlaybackSession`].
pub struct SessionView {
    /// The stream being played; 0 when idle.
    pub current_stream_id: u64,
    /// The last stream interrupted by a barge-in; 0 when none was.
    pub interrupted_stream_id: u64,
    /// Whether the end of the current stream was signalled and playback is
    /// being waited for.
    pub awaiting_completion: bool,
}

/// The stream being played is either none or newer than every interrupted one.
pub open spec fn session_wf(v: SessionView) -> bool {
    v.current_stream_id == 0 || v.current_stream_id > v.interrupted_stream_id
}

/// The decision for a chunk of stream `stream_id`.
pub open spec fn play_decision(v: SessionView, stream_id: u64) -> PlayDecision {
    if stream_id <= v.interrupted_stream_id {
        PlayDecision::Drop
    } else if stream_id != v.current_stream_id {
        PlayDecision::StartStream
    } else {
        PlayDecision::Continue
    }
}

/// Things that happen to a session.
pub enum SessionEvent {
    BargeIn,
    Play(u64),
    CompletionStarted,
    PlaybackFinished,
}

/// The session after one event.
pub open spec fn session_after(v: SessionView, e: SessionEvent) -> SessionView {
    match e {
        SessionEvent::BargeIn => if v.current_stream_id != 0 {
            SessionView { current_stream_id: 0, interrupted_stream_id: v.current_stream_id, awaiting_completion: false }
        } else {
            v
        },
        SessionEvent::Play(id) => if play_decision(v, id) == PlayDecision::StartStream {
            SessionView { current_stream_id: id, ..v }
        } else {
            v
        },
        SessionEvent::CompletionStarted => SessionView { awaiting_completion: true, ..v },
        SessionEvent::PlaybackFinished => SessionView { current_stream_id: 0, awaiting_completion: false, ..v },
    }
}

/// The session after a run of events, in order.
pub open spec fn session_after_all(v: SessionView, es: Seq<SessionEvent>) -> SessionView
    decreases es.len(),
{
    if es.len() == 0 {
        v
    } else {
        session_after(session_after_all(v, es.drop_last()), es.last())
    }
}

pub struct PlaybackSession {
    current_stream_id: u64,
    interrupted_stream_id: u64,
    awaiting_completion: bool,
}

impl View for PlaybackSession {
    type V = SessionView;

    closed spec fn view(&self) -> SessionView {
        SessionView {
            current_stream_id: self.current_stream_id,
            interrupted_stream_id: self.interrupted_stream_id,
            awaiting_completion: self.awaiting_completion,
        }
    }
}

impl PlaybackSession {
    #[verifier::type_invariant]
    spec fn inv(self) -> bool {
        session_wf(self@)
    }

    /// An idle session in which nothing was interrupted yet.
    pub fn new() -> (s: Self)
        ensures
            s@ == (SessionView { current_stream_id: 0, interrupted_stream_id: 0, awaiting_completion: false }),
    {
        Self { current_stream_id: 0, interrupted_stream_id: 0, awaiting_completion: false }
    }

    pub fn current_stream_id(&self) -> (id: u64)
        ensures
            id == self@.current_stream_id,
    {
        self.current_stream_id
    }

    pub fn interrupted_stream_id(&self) -> (id: u64)
        ensures
            id == self@.interrupted_stream_id,
    {
        self.interrupted_stream_id
    }

    pub fn awaiting_completion(&self) -> (b: bool)
        ensures
            b == self@.awaiting_completion,
    {
        self.awaiting_completion
    }

    /// A wake word was heard. When a stream is playing it is interrupted: the
    /// result is `true`, and the loop aborts playback and reports
    /// `PlaybackComplete` to the client.
    pub fn on_barge_in(&mut self) -> (interrupt: bool)
        ensures
            interrupt == (old(self)@.current_stream_id != 0),
            final(self)@ == session_after(old(self)@, SessionEvent::BargeIn),
    {
        if self.current_stream_id != 0 {
            *self = PlaybackSession {
                current_stream_id: 0,
                interrupted_stream_id: self.current_stream_id,
                awaiting_completion: false,
            };
            true
        } else {
            false
        }
    }

    /// A chunk of stream `stream_id` arrived.
    pub fn on_play(&mut self, stream_id: u64) -> (d: PlayDecision)
        ensures
            d == play_decision(old(self)@, stream_id),
            final(self)@ == session_after(old(self)@, SessionEvent::Play(stream_id)),
    {
        proof {
            use_type_invariant(&*self);
        }
        if stream_id <= self.interrupted_stream_id {
            PlayDecision::Drop
        } else if stream_id != self.current_stream_id {
            self.current_stream_id = stream_id;
            PlayDecision::StartStream
        } else {
            PlayDecision::Continue
        }
    }

    /// Whether the end of stream `stream_id` concerns the stream being
    /// played (ends of other streams are ignored).
    pub fn ends_current_stream(&self, stream_id: u64) -> (b: bool)
        ensures
            b == (stream_id == self@.current_stream_id),
    {
        stream_id == self.current_stream_id
    }

    /// The sink accepted the end of the stream; playback is now awaited.
    pub fn completion_started(&mut self)
        ensures
            final(self)@ == session_after(old(self)@, SessionEvent::CompletionStarted),
    {
        proof {
            use_type_invariant(&*self);
        }
        *self = PlaybackSession {
            current_stream_id: self.current_stream_id,
            interrupted_stream_id: self.interrupted_stream_id,
            awaiting_completion: true,
        };
    }

    /// Playback of the stream finished (or its completion signal was lost):
    /// the session is idle again.
    pub fn playback_finished(&mut self)
        ensures
            final(self)@ == session_after(old(self)@, SessionEvent::PlaybackFinished),
    {
        *self = PlaybackSession {
            current_stream_id: 0,
            interrupted_stream_id: self.interrupted_stream_id,
            awaiting_completion: false,
        };
    }
}

// ---------------------------------------------------------------------------
// Laws
// ---------------------------------------------------------------------------

/// Every event keeps the session well formed.
pub proof fn lemma_session_wf_preserved(v: SessionView, e: SessionEvent)
    requires
        session_wf(v),
    ensures
        session_wf(session_after(v, e)),
{
}

/// Interrupted streams stay interrupted: whatever happens afterwards, every
/// chunk of a stream at or below one that was interrupted is dropped, and
/// the stream being played is never one of them.
pub proof fn lemma_interrupted_stays_dropped(v: SessionView, es: Seq<SessionEvent>, id: u64)
    requires
        session_wf(v),
        id <= v.interrupted_stream_id,
    ensures
        session_after_all(v, es).interrupted_stream_id >= v.interrupted_stream_id,
        play_decision(session_after_all(v, es), id) == PlayDecision::Drop,
        session_after_all(v, es).current_stream_id != id || id == 0,
        session_wf(session_after_all(v, es)),
    decreases es.len(),
{
    if es.len() > 0 {
        lemma_interrupted_stays_dropped(v, es.drop_last(), id);
    }
}

/// A barge-in while a stream plays makes every later chunk of that stream
/// (and of older streams) be dropped.
pub proof fn lemma_barge_in_drops_stream(v: SessionView, es: Seq<SessionEvent>)
    requires
        session_wf(v),
        v.current_stream_id != 0,
    ensures
        play_decision(session_after_all(session_after(v, SessionEvent::BargeIn), es), v.current_stream_id)
            == PlayDecision::Drop,
{
    lemma_interrupted_stays_dropped(session_after(v, SessionEvent::BargeIn), es, v.current_stream_id);
}

/// A chunk that is not dropped makes its stream the one being played.
pub proof fn lemma_played_chunk_is_current(v: SessionView, id: u64)
    requires
        session_wf(v),
        play_decision(v, id) != PlayDecision::Drop,
    ensures
        session_after(v, SessionEvent::Play(id)).current_stream_id == id,
{
}

} // verus!
