//! The per-connection streaming session state machine.  Each second a
//! timer tick races the next inbound frame; exactly one of the two is
//! serviced per iteration.  This module decides, for each event, what
//! to send and whether the session lives on; performing the send is the
//! transport shell's job.

use vstd::prelude::*;
use crate::json::{json_of, to_json};
use crate::metrics::{CollectionError, Metrics};

verus! {

/// The close reason echoed back to a client: a status code and an
/// optional description.
pub struct CloseReason {
    pub code: u16,
    pub description: Option<String>,
}

/// One inbound frame, as the session sees it: a keepalive ping with its
/// payload, a close with its optional reason, any other frame kind, a
/// stream error, or the end of the stream.
pub enum Frame {
    Ping(Vec<u8>),
    Close(Option<CloseReason>),
    Other,
    Error,
    EndOfStream,
}

/// One event serviced by the session loop: the 1-second timer tick,
/// carrying the outcome of the snapshot taken on it, or an inbound
/// frame.
pub enum Event {
    Tick(Result<Metrics, CollectionError>),
    Inbound(Frame),
}

/// What the session asks the transport to do after an event.
pub enum Action {
    /// Push one serialized metrics record as a text message.
    Push(String),
    /// Answer a ping with a pong carrying the identical payload.
    Pong(Vec<u8>),
    /// Close the connection, echoing the given reason.
    CloseWith(Option<CloseReason>),
    /// Nothing to send.
    Ignore,
}

/// The session lifecycle: `Closed` is terminal.
#[derive(Clone, Copy, PartialEq, Eq, Structural, Debug)]
pub enum SessionState {
    Active,
    Closed,
}

/// Services one event: on a tick with a fresh record, push its JSON
/// text and stay active; on a failed snapshot, close with no reason; on
/// a ping, answer with a pong carrying the identical payload; on a
/// close, echo the reason and end; other frame kinds are ignored; a
/// stream error or its end ends the session.  A closed session
/// services nothing.
pub fn step(state: SessionState, event: Event) -> (r: (Action, SessionState))
    ensures
        state == SessionState::Closed ==> r == (Action::Ignore, SessionState::Closed),
        state == SessionState::Active ==> match event {
            Event::Tick(res) => match res {
                Result::Ok(m) => r.1 == SessionState::Active && (r.0 matches Action::Push(s)
                    && s@ == json_of(m)),
                Result::Err(_) => r == (
                    Action::CloseWith(Option::<CloseReason>::None),
                    SessionState::Closed,
                ),
            },
            Event::Inbound(f) => match f {
                Frame::Ping(p) => r == (Action::Pong(p), SessionState::Active),
                Frame::Close(reason) => r == (Action::CloseWith(reason), SessionState::Closed),
                Frame::Other => r == (Action::Ignore, SessionState::Active),
                Frame::Error => r == (Action::Ignore, SessionState::Closed),
                Frame::EndOfStream => r == (Action::Ignore, SessionState::Closed),
            },
        },
{
    match state {
        SessionState::Closed => (Action::Ignore, SessionState::Closed),
        SessionState::Active => match event {
            Event::Tick(res) => match res {
                Result::Ok(m) => (Action::Push(to_json(&m)), SessionState::Active),
                Result::Err(_) => (
                    Action::CloseWith(Option::None),
                    SessionState::Closed,
                ),
            },
            Event::Inbound(f) => match f {
                Frame::Ping(p) => (Action::Pong(p), SessionState::Active),
                Frame::Close(reason) => (Action::CloseWith(reason), SessionState::Closed),
                Frame::Other => (Action::Ignore, SessionState::Active),
                Frame::Error => (Action::Ignore, SessionState::Closed),
                Frame::EndOfStream => (Action::Ignore, SessionState::Closed),
            },
        },
    }
}

/// A failed push or pong ends the session; the failure stays local to
/// it.
pub fn on_send_failed(state: SessionState) -> (r: SessionState)
    ensures
        r == SessionState::Closed,
{
    let _ = state;
    SessionState::Closed
}

} // verus!
