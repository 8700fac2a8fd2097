//! The accept loop: one listener, a fixed number of workers. Accepting and
//! handing over are the caller's; what to do after each accept is decided
//! here.

use vstd::prelude::*;

verus! {

/// The port that the server listens on.
pub const PORT: u16 = 8080;

/// The number of connections that are served at the same time. Further
/// connections wait, with no limit on how many.
pub const WORKERS: usize = 3;

/// The life of the acceptor.
#[derive(Clone, Copy, Debug, PartialEq, Eq, Structural)]
pub enum Acceptor {
    /// Bound, and waiting for connections.
    Listening,
    /// Done for good: there is no way back to listening.
    Terminated,
}

/// Why an accept brought no connection.
#[derive(Clone, Copy, Debug, PartialEq, Eq, Structural)]
pub enum AcceptFault {
    /// The peer gave the connection up before it was accepted.
    ConnectionAborted,
    /// The peer reset the connection before it was accepted.
    ConnectionReset,
    /// The peer refused to go on with the connection.
    ConnectionRefused,
    /// The wait was cut short by a signal.
    Interrupted,
    /// No connection was waiting.
    WouldBlock,
    /// The wait ran out of time.
    TimedOut,
    /// Anything else: taken to be a fault of the listener itself.
    Other,
}

/// What an accept brought.
#[derive(Clone, Copy, Debug, PartialEq, Eq, Structural)]
pub enum Accepted {
    Connection,
    Fault(AcceptFault),
}

/// What to do after an accept.
#[derive(Clone, Copy, Debug, PartialEq, Eq, Structural)]
pub enum AcceptAction {
    /// Hand the connection to the worker pool and accept again.
    Submit,
    /// Give this attempt up and accept again.
    Skip,
    /// Stop accepting and end the process.
    Exit,
}

impl AcceptFault {
    /// The fault is the listener's own and ends the acceptor; every other
    /// fault touches one attempt only.
    pub open spec fn is_fatal(self) -> bool {
        self == AcceptFault::Other
    }
}

/// The next state and the action after an accept. While listening, a
/// connection is submitted, a fault of one attempt is skipped, and a fault
/// of the listener terminates. Once terminated, the only action is to exit.
pub open spec fn accept_step(state: Acceptor, accepted: Accepted) -> (Acceptor, AcceptAction) {
    match state {
        Acceptor::Terminated => (Acceptor::Terminated, AcceptAction::Exit),
        Acceptor::Listening => match accepted {
            Accepted::Connection => (Acceptor::Listening, AcceptAction::Submit),
            Accepted::Fault(fault) => if fault.is_fatal() {
                (Acceptor::Terminated, AcceptAction::Exit)
            } else {
                (Acceptor::Listening, AcceptAction::Skip)
            },
        },
    }
}

/// The state in which the acceptor starts, once the listener is bound.
pub fn start() -> (state: Acceptor)
    ensures
        state == Acceptor::Listening,
{
    Acceptor::Listening
}

/// Decides what follows an accept.
pub fn on_accept(state: Acceptor, accepted: Accepted) -> (next: (Acceptor, AcceptAction))
    ensures
        next == accept_step(state, accepted),
        next.1 == AcceptAction::Submit <==> state == Acceptor::Listening && accepted
            == Accepted::Connection,
        next.0 == Acceptor::Terminated <==> next.1 == AcceptAction::Exit,
        state == Acceptor::Terminated ==> next.0 == Acceptor::Terminated,
{
    match state {
        Acceptor::Terminated => (Acceptor::Terminated, AcceptAction::Exit),
        Acceptor::Listening => match accepted {
            Accepted::Connection => (Acceptor::Listening, AcceptAction::Submit),
            Accepted::Fault(AcceptFault::Other) => (Acceptor::Terminated, AcceptAction::Exit),
            Accepted::Fault(_) => (Acceptor::Listening, AcceptAction::Skip),
        },
    }
}

} // verus!
