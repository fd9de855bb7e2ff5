//! The event envelope: the closed union of every asynchronous occurrence
//! the daemon reacts to, and the inbound client commands carried by it.
//! Events are produced by many sources and consumed strictly one at a time
//! by the event loop.

use vstd::prelude::*;
use crate::net::RelayEndpoint;
use crate::states::TargetState;

verus! {

/// A lifecycle notification from the tunnel software.
#[derive(Debug)]
pub enum TunnelEvent {
    /// The tunnel came up; carries the established network interface name.
    Up { tunnel_interface: String },
    /// The tunnel went down.
    Down,
}

/// An inbound client command. A command that expects a reply owns, on the
/// wire, a single-use reply channel; here the reply becomes an effect the
/// handler emits, which the driver sends back on the channel it kept.
#[derive(Debug)]
pub enum TunnelCommand {
    /// Change the target state.
    SetTargetState(TargetState),
    /// Ask for the last broadcast snapshot.
    GetState,
    /// Ask for the account data of the given token; answered with a
    /// deferred result, never awaited by the daemon.
    GetAccountData(String),
    /// Set or clear the configured account token.
    SetAccount(Option<String>),
    /// Ask for the currently configured account token.
    GetAccount,
    /// Set the custom relay override.
    SetCustomRelay(RelayEndpoint),
}

/// All events that can happen in the daemon. Sent from various threads and
/// exposed interfaces; each is handed off exactly once into the queue and
/// consumed exactly once.
#[derive(Debug)]
pub enum DaemonEvent {
    /// A change of state reported by the tunnel software.
    TunnelEvent(TunnelEvent),
    /// The tunnel process exited; carries whether the exit was clean.
    TunnelExited(bool),
    /// A tunnel close operation completed; carries whether it succeeded.
    TunnelKillResult(bool),
    /// An inbound command from the management interface.
    ManagementInterfaceEvent(TunnelCommand),
    /// The server hosting the management interface died; carries whether it
    /// reported a clean exit.
    ManagementInterfaceExited(bool),
    /// Daemon shutdown triggered by a signal or similar.
    TriggerShutdown,
}

impl From<TunnelEvent> for DaemonEvent {
    fn from(tunnel_event: TunnelEvent) -> (r: DaemonEvent) {
        DaemonEvent::TunnelEvent(tunnel_event)
    }
}

impl vstd::std_specs::convert::FromSpecImpl<TunnelEvent> for DaemonEvent {
    open spec fn obeys_from_spec() -> bool {
        true
    }

    open spec fn from_spec(tunnel_event: TunnelEvent) -> DaemonEvent {
        DaemonEvent::TunnelEvent(tunnel_event)
    }
}

impl From<TunnelCommand> for DaemonEvent {
    fn from(tunnel_command: TunnelCommand) -> (r: DaemonEvent) {
        DaemonEvent::ManagementInterfaceEvent(tunnel_command)
    }
}

impl vstd::std_specs::convert::FromSpecImpl<TunnelCommand> for DaemonEvent {
    open spec fn obeys_from_spec() -> bool {
        true
    }

    open spec fn from_spec(tunnel_command: TunnelCommand) -> DaemonEvent {
        DaemonEvent::ManagementInterfaceEvent(tunnel_command)
    }
}

} // verus!
