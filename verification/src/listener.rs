//! The listener's decisions. The accept loop itself runs on a thread of the
//! transport layer: each iteration it observes one accept-level event and
//! one look at the shutdown control channel, and acts as the two step
//! functions here decide. The diagnostics it publishes are `ListenMessage`
//! values.

use vstd::prelude::*;

verus! {

/// A diagnostic event the listener publishes for the orchestrator to
/// surface: a fixed description and, where one exists, the text of the
/// underlying transport failure.
pub struct ListenMessage {
    /// What went wrong, in a fixed phrase.
    pub desc: &'static str,
    /// The underlying transport failure's text, where there was one.
    pub err: Option<String>,
}

impl ListenMessage {
    /// A diagnostic that carries an underlying transport failure.
    pub fn new(desc: &'static str, err: String) -> (r: ListenMessage)
        ensures
            r.desc == desc,
            r.err matches Some(e) && e@ == err@,
    {
        ListenMessage { desc, err: Some(err) }
    }

    /// A diagnostic with no underlying failure.
    pub fn new_str(desc: &'static str) -> (r: ListenMessage)
        ensures
            r.desc == desc,
            r.err is None,
    {
        ListenMessage { desc, err: None }
    }
}

/// What one pass over the accept socket observed.
#[derive(Clone, Copy, Debug, PartialEq, Eq, Structural)]
pub enum AcceptEvent {
    /// A socket was accepted and its inline handshake succeeded.
    Handshaken,
    /// A socket was accepted but its handshake failed; the socket is
    /// discarded and must not reach the registry.
    HandshakeFailed,
    /// No inbound socket was pending.
    WouldBlock,
    /// The accept itself failed for another reason.
    AcceptError,
}

/// What the accept loop does with what it observed.
#[derive(Clone, Copy, Debug, PartialEq, Eq, Structural)]
pub enum ListenAction {
    /// Publish the new connection on the hand-off queue and go on.
    PublishConnection,
    /// Publish a diagnostic on the message queue and go on accepting.
    PublishFailure,
    /// Yield control briefly, then re-poll.
    YieldAndRetry,
    /// Publish a fatal diagnostic and terminate the loop.
    StopFatal,
}

/// What one non-blocking look at the shutdown control channel observed.
#[derive(Clone, Copy, Debug, PartialEq, Eq, Structural)]
pub enum ShutdownCheck {
    /// A shutdown request was delivered.
    Requested,
    /// Nothing was pending.
    Empty,
    /// The controlling side is gone.
    Disconnected,
}

/// Decides the accept loop's reaction to one accept-level event: a ready
/// connection is published, a failed handshake is reported and accepting
/// goes on, a would-block probe yields and re-polls, and any other accept
/// failure is fatal to the loop.
pub fn accept_step(ev: AcceptEvent) -> (r: ListenAction)
    ensures
        ev == AcceptEvent::Handshaken ==> r == ListenAction::PublishConnection,
        ev == AcceptEvent::HandshakeFailed ==> r == ListenAction::PublishFailure,
        ev == AcceptEvent::WouldBlock ==> r == ListenAction::YieldAndRetry,
        ev == AcceptEvent::AcceptError ==> r == ListenAction::StopFatal,
{
    match ev {
        AcceptEvent::Handshaken => ListenAction::PublishConnection,
        AcceptEvent::HandshakeFailed => ListenAction::PublishFailure,
        AcceptEvent::WouldBlock => ListenAction::YieldAndRetry,
        AcceptEvent::AcceptError => ListenAction::StopFatal,
    }
}

/// Decides, from one look at the shutdown control channel, whether the
/// loop returns: it does on a delivered request and when the controlling
/// side is gone; an empty channel lets it run on.
pub fn shutdown_step(c: ShutdownCheck) -> (stop: bool)
    ensures
        stop == (c != ShutdownCheck::Empty),
{
    match c {
        ShutdownCheck::Requested => true,
        ShutdownCheck::Empty => false,
        ShutdownCheck::Disconnected => true,
    }
}

} // verus!
