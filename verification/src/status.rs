//! The status record that the supervisor hands to the service host.

use vstd::prelude::*;

verus! {

/// Where the supervisor stands in its life.
#[derive(Clone, Copy, Debug, PartialEq, Eq, Structural)]
pub enum Phase {
    /// No child has been started yet.
    Starting,
    /// A child has been started and is being watched.
    Running,
    /// A stop was requested and the child is being terminated.
    Stopping,
    /// Supervision has ended. Nothing follows this phase.
    Stopped,
}

/// How the service is hosted.
#[derive(Clone, Copy, Debug, PartialEq, Eq, Structural)]
pub enum ServiceKind {
    /// The service has a process to itself.
    OwnProcess,
    /// The service shares its process with others.
    SharedProcess,
}

/// Exit code of a stop that reports no error.
pub const NO_ERROR: u32 = 0;

/// One status record for the service host.
#[derive(Clone, Copy, Debug, PartialEq, Eq, Structural)]
pub struct StatusReport {
    /// How the service is hosted.
    pub kind: ServiceKind,
    /// The phase being announced.
    pub state: Phase,
    /// Whether a stop request is accepted. No other control ever is.
    pub accepts_stop: bool,
    /// Exit code shown to the host.
    pub exit_code: u32,
    /// Progress counter of a pending operation.
    pub checkpoint: u32,
    /// Estimated duration of a pending operation, in milliseconds.
    pub wait_hint_millis: u32,
}

impl StatusReport {
    /// The record that announces `state`. Apart from the state every
    /// record is the same: the service runs in its own process, accepts a
    /// stop and nothing else, and shows no error, no progress and no
    /// estimate, whatever led to the state.
    pub open spec fn announcing(state: Phase) -> StatusReport {
        StatusReport {
            kind: ServiceKind::OwnProcess,
            state,
            accepts_stop: true,
            exit_code: NO_ERROR,
            checkpoint: 0,
            wait_hint_millis: 0,
        }
    }

    /// Builds the record that announces `state`.
    pub fn announce(state: Phase) -> (report: StatusReport)
        ensures
            report == Self::announcing(state),
    {
        StatusReport {
            kind: ServiceKind::OwnProcess,
            state,
            accepts_stop: true,
            exit_code: NO_ERROR,
            checkpoint: 0,
            wait_hint_millis: 0,
        }
    }
}

} // verus!
