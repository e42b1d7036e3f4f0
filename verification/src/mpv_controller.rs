//! Pausing mpv on wake word over its JSON IPC socket.
//!
//! The socket is I/O and stays outside the library; here stand the choice
//! of socket, the commands sent, and the reading of mpv's reply lines.
use vstd::prelude::*;
use crate::text::{string_of, trim, trimmed};

verus! {

/// Event lines skipped at most while waiting for a reply.
pub const MAX_EVENT_SKIP: usize = 32;

/// Socket used when `MPV_SOCKET_PATH` is unset or empty.
pub const DEFAULT_SOCKET_PATH: &'static str = "/tmp/mpv-news.sock";

/// Asks mpv for its pause state (request id 1).
pub const GET_PAUSE_COMMAND: &'static str = "{\"command\":[\"get_property\",\"pause\"],\"request_id\":1}\n";

/// Asks mpv to pause (request id 2).
pub const SET_PAUSE_COMMAND: &'static str = "{\"command\":[\"set_property\",\"pause\",true],\"request_id\":2}\n";

/// What mpv's reply text gives for a numeric field: `None` when the text
/// is not JSON; otherwise the field's value as a `u64`, if it has one.
pub uninterp spec fn json_u64_at(text: Seq<char>, key: Seq<char>) -> Option<Option<u64>>;

/// What mpv's reply text gives for a boolean field: `None` when the text
/// is not JSON; otherwise the field's value as a `bool`, if it has one.
pub uninterp spec fn json_bool_at(text: Seq<char>, key: Seq<char>) -> Option<Option<bool>>;

/// Parses the text with `serde_json::from_str` and reads a field with
/// `Value::get` and `Value::as_u64`. Claimed: the result is
/// [`json_u64_at`] of the text and key.
#[verifier::external_body]
fn json_u64_field(text: &str, key: &str) -> (r: Option<Option<u64>>)
    ensures
        r == json_u64_at(text@, key@),
{
    match serde_json::from_str::<serde_json::Value>(text) {
        Ok(v) => Some(v.get(key).and_then(|x| x.as_u64())),
        Err(_) => None,
    }
}

/// Parses the text with `serde_json::from_str` and reads a field with
/// `Value::get` and `Value::as_bool`. Claimed: the result is
/// [`json_bool_at`] of the text and key.
#[verifier::external_body]
fn json_bool_field(text: &str, key: &str) -> (r: Option<Option<bool>>)
    ensures
        r == json_bool_at(text@, key@),
{
    match serde_json::from_str::<serde_json::Value>(text) {
        Ok(v) => Some(v.get(key).and_then(|x| x.as_bool())),
        Err(_) => None,
    }
}

/// What one line read from the socket means while waiting for a reply.
#[derive(Debug, Clone, Copy, PartialEq, Eq, Structural)]
pub enum ResponseLine {
    /// Nothing was read: mpv closed the socket.
    Closed,
    /// The line is not JSON.
    Malformed,
    /// The reply to the request waited for.
    Matching,
    /// An unsolicited event or another reply: skip it.
    Unrelated,
}

/// Handle on mpv's IPC socket.
#[derive(Clone)]
pub struct MpvController {
    socket_path: String,
}

impl MpvController {
    pub closed spec fn spec_socket_path(&self) -> Seq<char> {
        self.socket_path@
    }

    pub fn from_socket_path(socket_path: String) -> (c: Self)
        ensures
            c.spec_socket_path() == socket_path@,
    {
        Self { socket_path }
    }

    pub fn socket_path(&self) -> (p: &str)
        ensures
            p@ == self.spec_socket_path(),
    {
        self.socket_path.as_str()
    }

    /// The socket to use, from the value of `MPV_SOCKET_PATH` (`None` when
    /// unset or unreadable): that value unless it is empty, else the
    /// default. The flag tells whether the value was used.
    pub fn choose_socket_path(env_value: Option<String>) -> (r: (String, bool))
        ensures
            match env_value {
                Some(p) => if p@.len() > 0 {
                    r.0@ == p@ && r.1
                } else {
                    r.0@ == DEFAULT_SOCKET_PATH@ && !r.1
                },
                None => r.0@ == DEFAULT_SOCKET_PATH@ && !r.1,
            },
    {
        match env_value {
            Some(p) => {
                if p.as_str().is_empty() {
                    (string_of(DEFAULT_SOCKET_PATH), false)
                } else {
                    (p, true)
                }
            },
            None => (string_of(DEFAULT_SOCKET_PATH), false),
        }
    }

    /// Classifies a line read while waiting for the reply to `expected_id`.
    pub fn classify_response_line(line: &str, expected_id: u64) -> (r: ResponseLine)
        ensures
            line@.len() == 0 ==> r == ResponseLine::Closed,
            line@.len() > 0 ==> r == match json_u64_at(trim(line@), "request_id"@) {
                None => ResponseLine::Malformed,
                Some(id) => if id == Some(expected_id) {
                    ResponseLine::Matching
                } else {
                    ResponseLine::Unrelated
                },
            },
    {
        if line.is_empty() {
            return ResponseLine::Closed;
        }
        let text = trimmed(line);
        match json_u64_field(text.as_str(), "request_id") {
            None => ResponseLine::Malformed,
            Some(id) => match id {
                Some(v) => if v == expected_id {
                    ResponseLine::Matching
                } else {
                    ResponseLine::Unrelated
                },
                None => ResponseLine::Unrelated,
            },
        }
    }

    /// Whether the reply to the pause query says mpv is already paused. A
    /// missing or malformed `data` counts as playing, so a pause is tried.
    pub fn already_paused(reply: &str) -> (b: bool)
        ensures
            b == (json_bool_at(trim(reply@), "data"@) == Some(Some(true))),
    {
        let text = trimmed(reply);
        match json_bool_field(text.as_str(), "data") {
            Some(Some(v)) => v,
            _ => false,
        }
    }
}

/// Where the pause exchange with mpv stands.
#[derive(Debug, Clone, Copy, PartialEq, Eq, Structural)]
pub enum PausePhase {
    /// Waiting for the reply to the pause query.
    Query,
    /// The pause command was sent; waiting for its acknowledgement.
    Ack,
    /// The exchange is over; whether mpv was paused by it.
    Over(bool),
}

/// What to do next in the pause exchange.
#[derive(Debug, Clone, Copy, PartialEq, Eq, Structural)]
pub enum PauseStep {
    /// Read another line from the socket.
    ReadLine,
    /// Send [`SET_PAUSE_COMMAND`], then read lines.
    SendPause,
    /// Stop: whether mpv was paused.
    Done(bool),
}

/// The phase and skip count after one line, and the step that follows.
/// `line` is `None` when reading failed.
pub open spec fn pause_transition(phase: PausePhase, skipped: nat, line: Option<Seq<char>>) -> (PausePhase, nat, PauseStep) {
    match phase {
        PausePhase::Over(b) => (phase, skipped, PauseStep::Done(b)),
        PausePhase::Query => match line {
            None => (PausePhase::Over(false), skipped, PauseStep::Done(false)),
            Some(l) => if l.len() == 0 {
                (PausePhase::Over(false), skipped, PauseStep::Done(false))
            } else {
                match json_u64_at(trim(l), "request_id"@) {
                    None => (PausePhase::Over(false), skipped, PauseStep::Done(false)),
                    Some(id) => if id == Some(1u64) {
                        if json_bool_at(trim(l), "data"@) == Some(Some(true)) {
                            (PausePhase::Over(false), skipped, PauseStep::Done(false))
                        } else {
                            (PausePhase::Ack, 0, PauseStep::SendPause)
                        }
                    } else if skipped + 1 >= MAX_EVENT_SKIP {
                        (PausePhase::Over(false), skipped + 1, PauseStep::Done(false))
                    } else {
                        (PausePhase::Query, skipped + 1, PauseStep::ReadLine)
                    },
                }
            },
        },
        PausePhase::Ack => match line {
            None => (PausePhase::Over(true), skipped, PauseStep::Done(true)),
            Some(l) => if l.len() == 0 {
                (PausePhase::Over(true), skipped, PauseStep::Done(true))
            } else {
                match json_u64_at(trim(l), "request_id"@) {
                    None => (PausePhase::Over(true), skipped, PauseStep::Done(true)),
                    Some(id) => if id == Some(2u64) {
                        (PausePhase::Over(true), skipped, PauseStep::Done(true))
                    } else if skipped + 1 >= MAX_EVENT_SKIP {
                        (PausePhase::Over(true), skipped + 1, PauseStep::Done(true))
                    } else {
                        (PausePhase::Ack, skipped + 1, PauseStep::ReadLine)
                    },
                }
            },
        },
    }
}

/// The decisions of pausing mpv on wake word, once the socket is open and
/// the pause query ([`GET_PAUSE_COMMAND`]) was sent: each line read is
/// handed in and the exchange says what comes next. Unsolicited event
/// lines are skipped, at most [`MAX_EVENT_SKIP`] per request. mpv is
/// paused unless its reply says it already is; a failure before the pause
/// command counts as not paused, and once it is sent mpv counts as paused
/// whatever the acknowledgement.
pub struct PauseExchange {
    phase: PausePhase,
    skipped: usize,
}

impl PauseExchange {
    #[verifier::type_invariant]
    spec fn inv(self) -> bool {
        self.skipped < MAX_EVENT_SKIP
    }

    pub closed spec fn phase(&self) -> PausePhase {
        self.phase
    }

    /// Lines skipped while waiting for the current reply.
    pub closed spec fn skipped(&self) -> nat {
        self.skipped as nat
    }

    pub fn current_phase(&self) -> (p: PausePhase)
        ensures
            p == self.phase(),
    {
        self.phase
    }

    /// Starts waiting for the reply to the pause query.
    pub fn new() -> (r: Self)
        ensures
            r.phase() == PausePhase::Query,
            r.skipped() == 0,
    {
        Self { phase: PausePhase::Query, skipped: 0 }
    }

    /// Hands in a line read from the socket (`None` when reading failed).
    pub fn on_line(&mut self, line: Option<&str>) -> (step: PauseStep)
        ensures
            ({
                let t = pause_transition(
                    old(self).phase(),
                    old(self).skipped(),
                    match line {
                        Some(l) => Some(l@),
                        None => None,
                    },
                );
                &&& final(self).phase() == t.0
                &&& step == t.2
                &&& (t.2 is ReadLine || t.2 is SendPause) ==> final(self).skipped() == t.1
            }),
            final(self).skipped() < MAX_EVENT_SKIP,
    {
        proof {
            use_type_invariant(&*self);
        }
        let (expected, on_failure): (u64, bool) = match self.phase {
            PausePhase::Over(b) => {
                return PauseStep::Done(b);
            },
            PausePhase::Query => (1, false),
            PausePhase::Ack => (2, true),
        };
        let l = match line {
            None => {
                self.phase = PausePhase::Over(on_failure);
                return PauseStep::Done(on_failure);
            },
            Some(l) => l,
        };
        match MpvController::classify_response_line(l, expected) {
            ResponseLine::Closed | ResponseLine::Malformed => {
                self.phase = PausePhase::Over(on_failure);
                PauseStep::Done(on_failure)
            },
            ResponseLine::Matching => {
                if on_failure {
                    self.phase = PausePhase::Over(true);
                    PauseStep::Done(true)
                } else if MpvController::already_paused(l) {
                    self.phase = PausePhase::Over(false);
                    PauseStep::Done(false)
                } else {
                    self.phase = PausePhase::Ack;
                    self.skipped = 0;
                    PauseStep::SendPause
                }
            },
            ResponseLine::Unrelated => {
                if self.skipped + 1 >= MAX_EVENT_SKIP {
                    self.phase = PausePhase::Over(on_failure);
                    PauseStep::Done(on_failure)
                } else {
                    self.skipped = self.skipped + 1;
                    PauseStep::ReadLine
                }
            },
        }
    }
}

/// While waiting for the answer to the pause query the exchange never
/// reports mpv as paused, and it sends the pause command only when mpv
/// answered the query (request id 1) without saying it is paused. Once the
/// pause command is sent, the exchange never reports mpv as not paused.
pub proof fn lemma_paused_only_by_command(skipped: nat, line: Option<Seq<char>>)
    ensures
        pause_transition(PausePhase::Query, skipped, line).2 != PauseStep::Done(true),
        pause_transition(PausePhase::Query, skipped, line).2 == PauseStep::SendPause ==> (line matches Some(l)
            && json_u64_at(trim(l), "request_id"@) == Some(Some(1u64)) && json_bool_at(trim(l), "data"@) != Some(
            Some(true),
        )),
        pause_transition(PausePhase::Ack, skipped, line).2 != PauseStep::Done(false),
        pause_transition(PausePhase::Ack, skipped, line).2 != PauseStep::SendPause,
{
}

} // verus!
