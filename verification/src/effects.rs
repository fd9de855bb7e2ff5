//! What the daemon asks its collaborators to do. Handling one event appends
//! effects in order to the daemon's effect list; the driver drains the list
//! and performs each effect against the real collaborator (firewall, tunnel
//! subsystem, command server, settings store). The daemon never blocks on
//! them: results that matter come back as later events or are recorded as
//! outcomes before dispatch.

use vstd::prelude::*;
use crate::error::Error;
use crate::net::{Endpoint, RelayEndpoint};
use crate::states::DaemonState;

verus! {

/// The exclusively-owned, move-only token standing for a running tunnel's
/// close handle. It exists in the daemon only while the tunnel state is
/// `Connecting` or `Connected`, is taken (never copied) at kill time, and
/// is consumed exactly once by the close effect.
#[derive(Debug)]
pub struct CloseHandle {}

/// The packet-filter policy implied by the current connectivity state.
#[derive(Debug)]
pub enum SecurityPolicy {
    /// A relay was selected but no tunnel interface is established yet.
    Connecting(Endpoint),
    /// The tunnel is established on the named interface.
    Connected(Endpoint, String),
}

/// One request to a collaborator, emitted by an event handler.
#[derive(Debug)]
pub enum Effect {
    /// Notify all subscribed clients of a new daemon state snapshot.
    NotifyNewState(DaemonState),
    /// Broadcast an attempt-scoped failure to clients.
    NotifyError(Error),
    /// Ask the firewall to apply the given policy.
    ApplyPolicy(SecurityPolicy),
    /// Ask the firewall to restore the unsecured baseline policy.
    ResetPolicy,
    /// Spawn the tunnel subsystem toward the relay with the account token,
    /// wiring its lifecycle notifications and its exit back into the event
    /// queue.
    SpawnTunnel(Endpoint, String),
    /// Invoke the close operation of the owned tunnel resource on a worker
    /// and report its outcome back as an event.
    CloseTunnel(CloseHandle),
    /// Reply to a get-state command with the last broadcast snapshot.
    ReplyState(DaemonState),
    /// Reply to a get-account-data command with a deferred request for the
    /// expiry of the given token.
    ReplyAccountData(String),
    /// Reply to a get-account command with the configured token.
    ReplyAccount(Option<String>),
    /// Acknowledge a set-account command.
    ReplySetAccount,
    /// Acknowledge a set-custom-relay command.
    ReplySetCustomRelay,
    /// Persist the given account token.
    SaveAccountToken(Option<String>),
    /// Persist the given custom relay override.
    SaveCustomRelay(RelayEndpoint),
}

} // verus!
