//! Plain-value models of the network endpoints the daemon reasons about: a
//! relay endpoint as configured by the user, a resolved socket address, and
//! the endpoint handed to the tunnel subsystem.

use vstd::prelude::*;

verus! {

/// An IP address as a plain value: the 32-bit value of a version-4 address
/// or the 128-bit value of a version-6 address.
#[derive(Debug, Copy, Clone, PartialEq, Eq, Structural)]
pub enum IpAddress {
    V4(u32),
    V6(u128),
}

/// Transport protocol of a relay endpoint.
#[derive(Debug, Copy, Clone, PartialEq, Eq, Structural)]
pub enum TransportProtocol {
    Udp,
    Tcp,
}

/// A socket address a host name resolved to.
#[derive(Debug, Copy, Clone, PartialEq, Eq, Structural)]
pub struct SocketAddress {
    pub ip: IpAddress,
    pub port: u16,
}

/// A candidate network endpoint the tunnel connects through.
#[derive(Debug, Copy, Clone, PartialEq, Eq, Structural)]
pub struct Endpoint {
    pub address: IpAddress,
    pub port: u16,
    pub protocol: TransportProtocol,
}

impl Endpoint {
    pub fn new(address: IpAddress, port: u16, protocol: TransportProtocol) -> (r: Endpoint)
        ensures
            r == (Endpoint { address, port, protocol }),
    {
        Endpoint { address, port, protocol }
    }
}

/// A user-supplied custom relay override: a host name to resolve, a port,
/// and the name of a transport protocol.
#[derive(Debug)]
pub struct RelayEndpoint {
    pub host: String,
    pub port: u16,
    pub protocol: String,
}

/// Two custom relay overrides hold the same configuration.
pub open spec fn spec_relay_endpoint_eq(a: RelayEndpoint, b: RelayEndpoint) -> bool {
    a.host@ == b.host@ && a.port == b.port && a.protocol@ == b.protocol@
}

impl RelayEndpoint {
    /// Field-by-field copy of the override.
    pub fn duplicate(&self) -> (r: RelayEndpoint)
        ensures
            r == *self,
    {
        RelayEndpoint {
            host: self.host.clone(),
            port: self.port,
            protocol: self.protocol.clone(),
        }
    }

    /// Whether this override holds the same configuration as `other`.
    pub fn same_as(&self, other: &RelayEndpoint) -> (r: bool)
        ensures
            r == spec_relay_endpoint_eq(*self, *other),
    {
        self.host == other.host && self.port == other.port && self.protocol == other.protocol
    }
}

/// What a transport protocol name parses to: only the exact names `"udp"`
/// and `"tcp"` are known transport kinds.
pub open spec fn spec_parse_transport_protocol(s: Seq<char>) -> Option<TransportProtocol> {
    if s == "udp"@ {
        Some(TransportProtocol::Udp)
    } else if s == "tcp"@ {
        Some(TransportProtocol::Tcp)
    } else {
        None
    }
}

/// Parse a declared transport protocol name into a known transport kind.
pub fn parse_transport_protocol(s: &String) -> (r: Option<TransportProtocol>)
    ensures
        r == spec_parse_transport_protocol(s@),
{
    let udp: String = "udp".to_owned();
    let tcp: String = "tcp".to_owned();
    if *s == udp {
        Some(TransportProtocol::Udp)
    } else if *s == tcp {
        Some(TransportProtocol::Tcp)
    } else {
        None
    }
}

} // verus!
