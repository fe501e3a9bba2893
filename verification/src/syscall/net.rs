//! The socket system calls' decisions: what kind of socket `socket`
//! makes, what `getsockopt` reports, and the ephemeral ports.

use vstd::prelude::*;

use crate::net::endpoint::{Endpoint, IpAddress};
use crate::net::sockaddr::{sockaddr_out, sockaddr_write, written_as, AF_INET, AF_NETLINK, AF_PACKET, AF_UNIX};
use crate::syscall::{SysError, SysResult};

verus! {

pub const SOCK_TYPE_MASK: u8 = 0xf;
pub const SOCK_STREAM: u8 = 1;
pub const SOCK_DGRAM: u8 = 2;
pub const SOCK_RAW: u8 = 3;

/// The kinds of socket.
#[derive(Debug, Clone, Copy, PartialEq, Eq, Structural)]
pub enum SocketKind {
    Tcp,
    Udp,
    /// A raw IP socket of this protocol.
    Raw(u8),
    Packet,
    Netlink,
}

/// `socket`'s choice: TCP, UDP or raw IP in the Internet and Unix domains;
/// raw sockets only for packets and netlink; `EINVAL` for another type and
/// `EAFNOSUPPORT` for another domain. The domain is cut to 16 bits and the
/// type to its low four bits.
pub fn socket_kind(domain: usize, socket_type: usize, protocol: usize) -> (r: Result<SocketKind, SysError>)
    ensures
        ({
            let d = domain as u16;
            let t = (socket_type as u8) & SOCK_TYPE_MASK;
            r == if d == AF_INET || d == AF_UNIX {
                if t == SOCK_STREAM {
                    Ok::<SocketKind, SysError>(SocketKind::Tcp)
                } else if t == SOCK_DGRAM {
                    Ok(SocketKind::Udp)
                } else if t == SOCK_RAW {
                    Ok(SocketKind::Raw(protocol as u8))
                } else {
                    Err(SysError::EINVAL)
                }
            } else if d == AF_PACKET {
                if t == SOCK_RAW { Ok(SocketKind::Packet) } else { Err(SysError::EINVAL) }
            } else if d == AF_NETLINK {
                if t == SOCK_RAW { Ok(SocketKind::Netlink) } else { Err(SysError::EINVAL) }
            } else {
                Err(SysError::EAFNOSUPPORT)
            }
        }),
{
    let d = domain as u16;
    let t = (socket_type as u8) & SOCK_TYPE_MASK;
    if d == AF_INET || d == AF_UNIX {
        if t == SOCK_STREAM {
            Ok(SocketKind::Tcp)
        } else if t == SOCK_DGRAM {
            Ok(SocketKind::Udp)
        } else if t == SOCK_RAW {
            Ok(SocketKind::Raw(protocol as u8))
        } else {
            Err(SysError::EINVAL)
        }
    } else if d == AF_PACKET {
        if t == SOCK_RAW {
            Ok(SocketKind::Packet)
        } else {
            Err(SysError::EINVAL)
        }
    } else if d == AF_NETLINK {
        if t == SOCK_RAW {
            Ok(SocketKind::Netlink)
        } else {
            Err(SysError::EINVAL)
        }
    } else {
        Err(SysError::EAFNOSUPPORT)
    }
}

pub const SOL_SOCKET: usize = 1;
pub const SO_SNDBUF: usize = 7;
pub const SO_RCVBUF: usize = 8;
pub const IPPROTO_TCP: usize = 6;
pub const TCP_CONGESTION: usize = 13;

/// The send and receive buffers of a TCP socket: 512 KiB each.
pub const TCP_SENDBUF: usize = 524288;
pub const TCP_RECVBUF: usize = 524288;

/// `getsockopt`: the sizes of the TCP buffers as 4-byte values; the
/// congestion algorithm with nothing written; `ENOPROTOOPT` else.
pub fn getsockopt(level: usize, optname: usize) -> (r: Result<Option<u32>, SysError>)
    ensures
        r == if level == SOL_SOCKET && optname == SO_SNDBUF {
            Ok::<Option<u32>, SysError>(Some(TCP_SENDBUF as u32))
        } else if level == SOL_SOCKET && optname == SO_RCVBUF {
            Ok::<Option<u32>, SysError>(Some(TCP_RECVBUF as u32))
        } else if level == IPPROTO_TCP && optname == TCP_CONGESTION {
            Ok::<Option<u32>, SysError>(None)
        } else {
            Err(SysError::ENOPROTOOPT)
        },
{
    if level == SOL_SOCKET {
        if optname == SO_SNDBUF {
            Ok(Some(TCP_SENDBUF as u32))
        } else if optname == SO_RCVBUF {
            Ok(Some(TCP_RECVBUF as u32))
        } else {
            Err(SysError::ENOPROTOOPT)
        }
    } else if level == IPPROTO_TCP {
        if optname == TCP_CONGESTION {
            Ok(None)
        } else {
            Err(SysError::ENOPROTOOPT)
        }
    } else {
        Err(SysError::ENOPROTOOPT)
    }
}

/// The first ephemeral port.
pub const EPHEMERAL_FIRST: u16 = 49152;

/// The port handed out after `last` (0 before the first): the first time
/// one past a random start in 49152..65536, then one up each time, from
/// 65535 back to 49152.
pub open spec fn next_ephemeral_port(last: u16, random: usize) -> u16 {
    let start = if last == 0 { (49152 + random % 16384) as u16 } else { last };
    if start == 65535 { EPHEMERAL_FIRST } else { (start + 1) as u16 }
}

/// The ephemeral ports handed out: the last one, or 0 before the first.
pub struct EphemeralPorts {
    pub last: u16,
}

impl EphemeralPorts {
    pub open spec fn wf(&self) -> bool {
        self.last == 0 || self.last >= EPHEMERAL_FIRST
    }

    pub fn new() -> (p: Self)
        ensures
            p.wf(),
            p.last == 0,
    {
        EphemeralPorts { last: 0 }
    }

    /// The next port: the first time from a random start in 49152..65536,
    /// then one up each time, from 65535 back to 49152.
    pub fn get_ephemeral_port(&mut self, random: usize) -> (port: u16)
        requires
            old(self).wf(),
        ensures
            final(self).wf(),
            port == next_ephemeral_port(old(self).last, random),
            final(self).last == port,
            EPHEMERAL_FIRST <= port,
    {
        if self.last == 0 {
            self.last = (49152 + random % 16384) as u16;
        }
        if self.last == 65535 {
            self.last = EPHEMERAL_FIRST;
        } else {
            self.last = self.last + 1;
        }
        self.last
    }
}

/// `getsockname` and `getpeername`: a null address, or a socket without
/// that endpoint, is `EINVAL`; else the address is written out.
pub fn socket_name(addr_is_null: bool, endpoint: Option<Endpoint>, max_addr_len: u32) -> (r: Result<(Vec<u8>, u32), SysError>)
    requires
        !(endpoint matches Some(Endpoint::Ip(ip)) && ip.addr == IpAddress::Other),
    ensures
        addr_is_null ==> r == Err::<(Vec<u8>, u32), SysError>(SysError::EINVAL),
        !addr_is_null ==> match endpoint {
            None => r == Err::<(Vec<u8>, u32), SysError>(SysError::EINVAL),
            Some(ep) => written_as(r, sockaddr_out(ep, max_addr_len)),
        },
{
    if addr_is_null {
        return Err(SysError::EINVAL);
    }
    match endpoint {
        None => Err(SysError::EINVAL),
        Some(ep) => sockaddr_write(ep, max_addr_len),
    }
}

/// The end of `recvfrom`, `recvmsg` and `accept`: after a successful
/// receive the sender goes to a non-null address; an error in writing it
/// replaces the result. Returns the result and the address bytes and
/// length to write.
pub fn recv_finish(result: SysResult, addr_is_null: bool, endpoint: Endpoint, max_addr_len: u32) -> (r: (
    SysResult,
    Option<(Vec<u8>, u32)>,
))
    requires
        result is Ok && !addr_is_null ==> !(endpoint matches Endpoint::Ip(ip) && ip.addr == IpAddress::Other),
    ensures
        result is Err || addr_is_null ==> r.0 == result && r.1 is None,
        result is Ok && !addr_is_null ==> match sockaddr_out(endpoint, max_addr_len) {
            Ok((bytes, len)) => r.0 == result && (r.1 matches Some((v, l)) && v@ == bytes && l == len),
            Err(e) => r.0 == Err::<usize, SysError>(e) && r.1 is None,
        },
{
    if result.is_err() || addr_is_null {
        return (result, None);
    }
    match sockaddr_write(endpoint, max_addr_len) {
        Ok((v, l)) => (result, Some((v, l))),
        Err(e) => (Err(e), None),
    }
}

} // verus!
