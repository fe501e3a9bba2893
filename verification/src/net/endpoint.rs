//! The endpoints that sockets are bound and connected to.

use vstd::prelude::*;

verus! {

/// An IP address as the socket layer sees it.
#[derive(Debug, Clone, Copy, PartialEq, Eq, Structural)]
pub enum IpAddress {
    /// no address given
    Unspecified,
    /// an IPv4 address, most significant byte first
    Ipv4(u8, u8, u8, u8),
    /// an address of another version, which the socket layer does not handle
    Other,
}

/// An IP address with a port.
#[derive(Debug, Clone, Copy, PartialEq, Eq, Structural)]
pub struct IpEndpoint {
    pub addr: IpAddress,
    pub port: u16,
}

/// A network interface, by its index.
#[derive(Debug, Clone, Copy, PartialEq, Eq, Structural)]
pub struct LinkLevelEndpoint {
    pub interface_index: usize,
}

impl LinkLevelEndpoint {
    pub fn new(ifindex: usize) -> (e: Self)
        ensures
            e.interface_index == ifindex,
    {
        LinkLevelEndpoint { interface_index: ifindex }
    }
}

/// A netlink port and the multicast groups it listens to.
#[derive(Debug, Clone, Copy, PartialEq, Eq, Structural)]
pub struct NetlinkEndpoint {
    pub port_id: u32,
    pub multicast_groups_mask: u32,
}

impl NetlinkEndpoint {
    pub fn new(port_id: u32, multicast_groups_mask: u32) -> (e: Self)
        ensures
            e.port_id == port_id,
            e.multicast_groups_mask == multicast_groups_mask,
    {
        NetlinkEndpoint { port_id, multicast_groups_mask }
    }
}

/// Where a socket sends to or receives from.
#[derive(Debug, Clone, Copy, PartialEq, Eq, Structural)]
pub enum Endpoint {
    Ip(IpEndpoint),
    LinkLevel(LinkLevelEndpoint),
    Netlink(NetlinkEndpoint),
}

/// The endpoint that stands for "no particular peer".
pub open spec fn unspecified_ip_endpoint() -> Endpoint {
    Endpoint::Ip(IpEndpoint { addr: IpAddress::Unspecified, port: 0 })
}

} // verus!
