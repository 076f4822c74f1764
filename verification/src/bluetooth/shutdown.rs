//! Bringing the manager and the coordinator down in order.

use vstd::prelude::*;

verus! {

/// How the coordinator's task ended.
#[derive(Clone, Copy, Debug, PartialEq, Eq, Structural)]
pub enum JoinOutcome {
    /// It ran to its end.
    Finished,
    /// It was cancelled.
    Cancelled,
    /// It panicked.
    Panicked,
}

/// How far the shutdown has come.
#[derive(Clone, Copy, Debug, PartialEq, Eq, Structural)]
pub enum Shutdown {
    /// Telling the coordinator to stop.
    Notifying,
    /// Cancelling the manager's task.
    Cancelling,
    /// Waiting for the coordinator's task to end.
    Joining,
    /// Over; `panicked` says that the coordinator's task had panicked.
    Done { panicked: bool },
}

/// What the caller is to do next.
#[derive(Clone, Copy, Debug, PartialEq, Eq, Structural)]
pub enum ShutdownRequest {
    /// Send `Stopping` to the coordinator. That it cannot be delivered only
    /// means that the coordinator has stopped by itself.
    SendStopping,
    /// Abort the manager's task; it has nothing to clean up.
    AbortManager,
    /// Wait until the coordinator's task has ended.
    JoinCoordinator,
    /// Raise the coordinator's panic again, on the thread that asked for
    /// the shutdown.
    ResumePanic,
    /// Return to the caller.
    Return,
}

/// What the caller has to report.
#[derive(Clone, Copy, Debug, PartialEq, Eq, Structural)]
pub enum ShutdownEvent {
    /// `Stopping` was sent, or could not be: `delivered` says which.
    Sent { delivered: bool },
    /// The manager's task has been aborted.
    Aborted,
    /// The coordinator's task has ended.
    Joined(JoinOutcome),
}

impl Shutdown {
    /// The request that the shutdown is waiting on.
    pub open spec fn pending(self) -> ShutdownRequest {
        match self {
            Shutdown::Notifying => ShutdownRequest::SendStopping,
            Shutdown::Cancelling => ShutdownRequest::AbortManager,
            Shutdown::Joining => ShutdownRequest::JoinCoordinator,
            Shutdown::Done { panicked } => if panicked {
                ShutdownRequest::ResumePanic
            } else {
                ShutdownRequest::Return
            },
        }
    }

    /// The shutdown after `event`.
    ///
    /// `Stopping` is sent first, and whether it arrived makes no
    /// difference. Then the manager is cancelled, and then the
    /// coordinator's task is waited for. If that task had panicked, the
    /// panic is to be raised again; if it ended in any other way, the
    /// shutdown returns. An event that does not answer the pending
    /// request changes nothing.
    pub open spec fn after(self, event: ShutdownEvent) -> Shutdown {
        match (self, event) {
            (Shutdown::Notifying, ShutdownEvent::Sent { .. }) => Shutdown::Cancelling,
            (Shutdown::Cancelling, ShutdownEvent::Aborted) => Shutdown::Joining,
            (Shutdown::Joining, ShutdownEvent::Joined(outcome)) => Shutdown::Done {
                panicked: outcome == JoinOutcome::Panicked,
            },
            _ => self,
        }
    }

    /// A shutdown at its start, and its first request.
    pub fn begin() -> (started: (Shutdown, ShutdownRequest))
        ensures
            started.0 == Shutdown::Notifying,
            started.1 == ShutdownRequest::SendStopping,
    {
        (Shutdown::Notifying, ShutdownRequest::SendStopping)
    }

    /// The request that the shutdown is waiting on.
    pub fn request(&self) -> (request: ShutdownRequest)
        ensures
            request == self.pending(),
    {
        match self {
            Shutdown::Notifying => ShutdownRequest::SendStopping,
            Shutdown::Cancelling => ShutdownRequest::AbortManager,
            Shutdown::Joining => ShutdownRequest::JoinCoordinator,
            Shutdown::Done { panicked } => if *panicked {
                ShutdownRequest::ResumePanic
            } else {
                ShutdownRequest::Return
            },
        }
    }

    /// Takes in `event` and says what to do next.
    pub fn advance(&mut self, event: ShutdownEvent) -> (next: ShutdownRequest)
        ensures
            *final(self) == old(self).after(event),
            next == final(self).pending(),
    {
        match (*self, event) {
            (Shutdown::Notifying, ShutdownEvent::Sent { .. }) => {
                *self = Shutdown::Cancelling;
            },
            (Shutdown::Cancelling, ShutdownEvent::Aborted) => {
                *self = Shutdown::Joining;
            },
            (Shutdown::Joining, ShutdownEvent::Joined(outcome)) => {
                let panicked: bool = match outcome {
                    JoinOutcome::Panicked => true,
                    _ => false,
                };
                *self = Shutdown::Done { panicked };
            },
            _ => {},
        }
        self.request()
    }
}

/// A shutdown that is carried out as asked ends by raising the panic again
/// exactly when the coordinator's task had panicked, whether or not
/// `Stopping` could be delivered; otherwise it returns.
pub proof fn lemma_shutdown_raises_panic(delivered: bool, outcome: JoinOutcome)
    ensures
        Shutdown::Notifying.after(ShutdownEvent::Sent { delivered }).after(
            ShutdownEvent::Aborted,
        ).after(ShutdownEvent::Joined(outcome)).pending() == (if outcome == JoinOutcome::Panicked {
            ShutdownRequest::ResumePanic
        } else {
            ShutdownRequest::Return
        }),
{
}

} // verus!
