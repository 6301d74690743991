//! Plain-value network types of the capability surface: what the sandbox and
//! the host exchange when the guest uses the UDP capability.
//!
//! The transport below works with its own address types; the boundary code
//! converts those to and from these value types, and everything the library
//! decides is decided on these.

use vstd::prelude::*;

verus! {

/// An IPv4 address as four octets.
#[derive(Debug, Clone, Copy, PartialEq, Eq, Structural)]
pub struct Ipv4Addr {
    pub a: u8,
    pub b: u8,
    pub c: u8,
    pub d: u8,
}

impl Ipv4Addr {
    /// Builds the address from its octets in network order.
    pub fn from_octets(octets: [u8; 4]) -> (r: Ipv4Addr)
        ensures
            r.a == octets@[0],
            r.b == octets@[1],
            r.c == octets@[2],
            r.d == octets@[3],
    {
        Ipv4Addr { a: octets[0], b: octets[1], c: octets[2], d: octets[3] }
    }
}

/// An IP address; this device speaks IPv4.
#[derive(Debug, Clone, Copy, PartialEq, Eq, Structural)]
pub enum IpAddr {
    V4(Ipv4Addr),
}

/// One end of a UDP exchange.
#[derive(Debug, Clone, Copy, PartialEq, Eq, Structural)]
pub struct Endpoint {
    pub addr: IpAddr,
    pub port: u16,
}

/// Addressing information attached to a datagram: the remote endpoint, and
/// the local address it arrived on when known.
#[derive(Debug, Clone, Copy, PartialEq, Eq, Structural)]
pub struct UdpMetadata {
    pub endpoint: Endpoint,
    pub local_addr: Option<IpAddr>,
}

} // verus!
