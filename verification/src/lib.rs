//! Control core of a VPN client daemon.
//!
//! The daemon decides, at every moment, whether a secure tunnel should be up
//! or down, drives the tunnel software through its lifecycle, and keeps the
//! packet-filter policy synchronized with the tunnel's actual connectivity.
//! All decision logic lives here as a verified, single-writer state machine:
//! outside collaborators (the tunnel process supervisor, the firewall, the
//! command server, the settings store) are represented by the effects the
//! machine emits and by the recorded outcomes of the calls it would make,
//! so that a driver can run the event loop while every rule about state
//! transitions is proved.

pub mod daemon;
pub mod effects;
pub mod error;
pub mod events;
pub mod net;
pub mod settings;
pub mod states;
pub mod laws;
