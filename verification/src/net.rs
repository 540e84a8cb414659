//! Plain-value models of the network-level data the engine reads: addresses,
//! endpoints, tunnel options and the interface configuration reported for an
//! established tunnel.

use vstd::prelude::*;

verus! {

/// An IPv4 address, by octets.
#[derive(Clone, Copy, Debug, PartialEq, Eq)]
pub struct Ipv4Address {
    pub o0: u8,
    pub o1: u8,
    pub o2: u8,
    pub o3: u8,
}

/// A socket address: an IPv4 address and a port.
#[derive(Clone, Copy, Debug, PartialEq, Eq)]
pub struct SocketAddress {
    pub ip: Ipv4Address,
    pub port: u16,
}

/// Transport protocol used to reach an endpoint.
#[derive(Clone, Copy, Debug, PartialEq, Eq)]
pub enum TransportProtocol {
    Tcp,
    Udp,
}

/// The remote endpoint a tunnel connection attempt is directed at.
#[derive(Clone, Copy, Debug, PartialEq, Eq)]
pub struct TunnelEndpoint {
    pub address: SocketAddress,
    pub protocol: TransportProtocol,
}

/// Options applied to a tunnel when it is opened.
#[derive(Clone, Copy, Debug, PartialEq, Eq)]
pub struct TunnelOptions {
    pub enable_ipv6: bool,
    pub mtu: Option<u16>,
}

/// Interface configuration reported for an established tunnel.
#[derive(Clone, Copy, Debug, PartialEq, Eq)]
pub struct TunnelMetadata {
    pub address: Ipv4Address,
    pub gateway: Ipv4Address,
}

/// The account credential a connection attempt is made under.
pub type AccountToken = String;

} // verus!
