//! The Observer Session state machine. A session is `Connected` on
//! transport upgrade, pushes one projection of the current value, and then
//! streams: on every change it renders and pushes again, until the peer
//! closes, a push fails, or a render fails. The surrounding event loop
//! (transport reads, awaits) is unverified plumbing; every decision it
//! takes comes from the functions here.

use vstd::prelude::*;
use crate::errors::AppError;

verus! {

/// Lifecycle of one observer connection.
#[derive(Clone, Copy, Debug, PartialEq, Eq)]
pub enum SessionState {
    /// Transport just upgraded; nothing pushed yet.
    Connected,
    /// Initial push done; waiting for changes or peer close.
    Streaming,
    /// Terminal: the transport is gone or being torn down.
    Closed,
}

/// What the subscription side of the event loop reported.
#[derive(Clone, Copy, Debug, PartialEq, Eq)]
pub enum ChangeSignal {
    /// The cell changed since the session last observed it.
    ValueChanged,
    /// The cell was permanently closed: abnormal during normal operation.
    SourceClosed,
}

/// What the event loop must do next.
#[derive(Clone, Copy, Debug, PartialEq, Eq)]
pub enum SessionAction {
    /// Read the latest value through the subscription, render it, push it.
    RenderAndPush,
    /// Attempt a graceful shutdown of the transport.
    CloseTransport,
    /// Nothing: the session is over or nothing is ready.
    DoNothing,
}

/// One step of the session machine. `peer_closed` and `signal` are the two
/// events the loop waits on; when both are ready at once, peer close wins,
/// so the machine never directs a push to a closing transport.
pub open spec fn session_next(s: SessionState, peer_closed: bool, signal: Option<ChangeSignal>) -> (
    SessionState,
    SessionAction,
) {
    if s is Closed {
        (SessionState::Closed, SessionAction::DoNothing)
    } else if peer_closed {
        (SessionState::Closed, SessionAction::DoNothing)
    } else if s is Connected {
        (SessionState::Streaming, SessionAction::RenderAndPush)
    } else {
        match signal {
            None => (SessionState::Streaming, SessionAction::DoNothing),
            Some(ChangeSignal::ValueChanged) => (
                SessionState::Streaming,
                SessionAction::RenderAndPush,
            ),
            Some(ChangeSignal::SourceClosed) => (
                SessionState::Closed,
                SessionAction::CloseTransport,
            ),
        }
    }
}

/// Decide the session's next state and the loop's next action.
pub fn session_step(s: SessionState, peer_closed: bool, signal: Option<ChangeSignal>) -> (r: (
    SessionState,
    SessionAction,
))
    ensures
        r == session_next(s, peer_closed, signal),
{
    match s {
        SessionState::Closed => (SessionState::Closed, SessionAction::DoNothing),
        _ => {
            if peer_closed {
                (SessionState::Closed, SessionAction::DoNothing)
            } else {
                match s {
                    SessionState::Connected => (
                        SessionState::Streaming,
                        SessionAction::RenderAndPush,
                    ),
                    _ => match signal {
                        None => (SessionState::Streaming, SessionAction::DoNothing),
                        Some(ChangeSignal::ValueChanged) => (
                            SessionState::Streaming,
                            SessionAction::RenderAndPush,
                        ),
                        Some(ChangeSignal::SourceClosed) => (
                            SessionState::Closed,
                            SessionAction::CloseTransport,
                        ),
                    },
                }
            }
        },
    }
}

/// Decide what to do with a render outcome: push the text on success, close
/// the session on failure (a render failure is fatal to this one session
/// only, never to the cell or to other sessions).
pub fn session_after_render(outcome: Result<String, AppError>) -> (r: (
    SessionState,
    Option<String>,
))
    ensures
        outcome matches Ok(t) ==> r.0 == SessionState::Streaming && r.1 == Some(t),
        outcome is Err ==> r.0 == SessionState::Closed && r.1 is None,
{
    match outcome {
        Ok(t) => (SessionState::Streaming, Some(t)),
        Err(_) => (SessionState::Closed, None),
    }
}

/// Decide what follows a push attempt: keep streaming if it was delivered,
/// close (a gone peer is a normal disconnect, not an application error)
/// if not.
pub fn session_after_push(delivered: bool) -> (r: SessionState)
    ensures
        delivered ==> r == SessionState::Streaming,
        !delivered ==> r == SessionState::Closed,
{
    if delivered {
        SessionState::Streaming
    } else {
        SessionState::Closed
    }
}

/// Peer close takes priority: whatever else is ready, a session whose peer
/// has closed transitions to `Closed` and pushes nothing.
pub proof fn lemma_peer_close_priority(s: SessionState, signal: Option<ChangeSignal>)
    ensures
        session_next(s, true, signal).0 is Closed,
        session_next(s, true, signal).1 != SessionAction::RenderAndPush,
{
}

/// `Closed` is terminal: no event revives a closed session or makes it act.
pub proof fn lemma_closed_terminal(peer_closed: bool, signal: Option<ChangeSignal>)
    ensures
        session_next(SessionState::Closed, peer_closed, signal) == (
            SessionState::Closed,
            SessionAction::DoNothing,
        ),
{
}

/// Sessions are independent: stepping one session of a group changes no
/// other session. The step function takes no cell either, so closing a
/// session can affect neither the State Cell nor later control calls.
pub proof fn lemma_disconnect_isolation(
    sessions: Seq<SessionState>,
    i: int,
    peer_closed: bool,
    signal: Option<ChangeSignal>,
)
    requires
        0 <= i < sessions.len(),
    ensures
        forall|j: int|
            0 <= j < sessions.len() && j != i ==> sessions.update(
                i,
                session_next(sessions[i], peer_closed, signal).0,
            )[j] == sessions[j],
{
}

} // verus!
