//! The two small state machines of the daemon: the actual tunnel state and
//! the desired (target) state, plus the broadcastable snapshot derived from
//! them.

use vstd::prelude::*;

verus! {

/// Internal state of the actual tunnel resource.
#[derive(Debug, Copy, Clone, PartialEq, Eq, Structural)]
pub enum TunnelState {
    /// No tunnel is running.
    NotRunning,
    /// The tunnel has been started, but it is not established yet.
    Connecting,
    /// The tunnel is up and working.
    Connected,
    /// A tunnel kill was triggered and the wait for the tunnel process to
    /// stop is still in progress.
    Exiting,
}

/// Security classification reported to clients.
#[derive(Debug, Copy, Clone, PartialEq, Eq, Structural)]
pub enum SecurityState {
    Unsecured,
    Secured,
}

/// The connectivity state the user asked for, independent of what is
/// currently true.
#[derive(Debug, Copy, Clone, PartialEq, Eq, Structural)]
pub enum TargetState {
    Unsecured,
    Secured,
}

/// Broadcastable snapshot: the reported security state paired with the
/// target state.
#[derive(Debug, Copy, Clone, PartialEq, Eq, Structural)]
pub struct DaemonState {
    pub state: SecurityState,
    pub target_state: TargetState,
}

/// Security classification a tunnel state is reported as: only `Connected`
/// counts as secured.
pub open spec fn spec_security_state(s: TunnelState) -> SecurityState {
    if s is Connected {
        SecurityState::Secured
    } else {
        SecurityState::Unsecured
    }
}

/// The snapshot derived from an actual state and a target state.
pub open spec fn spec_derived_state(s: TunnelState, t: TargetState) -> DaemonState {
    DaemonState { state: spec_security_state(s), target_state: t }
}

impl TunnelState {
    /// Map the actual tunnel state to the security state reported to
    /// clients. This is a reported classification, distinct from the tunnel
    /// state itself.
    pub fn as_security_state(&self) -> (r: SecurityState)
        ensures
            r == spec_security_state(*self),
    {
        match *self {
            TunnelState::Connected => SecurityState::Secured,
            _ => SecurityState::Unsecured,
        }
    }
}

} // verus!
