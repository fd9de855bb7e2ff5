//! Closed error taxonomy of the daemon core, with explicit "caused by"
//! wrapping at each propagation boundary.

use vstd::prelude::*;

verus! {

/// The closed set of failure kinds the daemon distinguishes.
#[derive(Debug)]
pub enum ErrorKind {
    /// The daemon is in an invalid state for the requested operation. This
    /// is an internal-consistency error: it indicates a logic defect, never
    /// an environmental fault.
    InvalidState,
    /// Error in the tunnel monitor subsystem.
    TunnelError(&'static str),
    /// Error in the management interface (the command server).
    ManagementInterfaceError(&'static str),
    /// The firewall collaborator rejected an apply or reset.
    FirewallError,
    /// The configured settings do not allow the operation.
    InvalidSettings(&'static str),
    /// No viable relay to connect to was found.
    NoRelay,
    /// A plain message used when wrapping a lower-level failure.
    Msg(&'static str),
}

/// An error: a kind plus an optional underlying cause, so that the causal
/// chain of a failure is kept when it crosses a propagation boundary.
#[derive(Debug)]
pub struct Error {
    pub kind: ErrorKind,
    pub cause: Option<Box<Error>>,
}

impl Error {
    /// A fresh error with no underlying cause.
    pub fn new(kind: ErrorKind) -> (r: Error)
        ensures
            r.kind == kind,
            r.cause is None,
    {
        Error { kind, cause: None }
    }

    /// Wrap an underlying error with a higher-level kind.
    pub fn chain(kind: ErrorKind, cause: Error) -> (r: Error)
        ensures
            r.kind == kind,
            r.cause matches Some(c) && *c == cause,
    {
        Error { kind, cause: Some(Box::new(cause)) }
    }

    /// The kind at the head of the causal chain.
    pub fn kind(&self) -> (r: &ErrorKind)
        ensures
            *r == self.kind,
    {
        &self.kind
    }
}

} // verus!
