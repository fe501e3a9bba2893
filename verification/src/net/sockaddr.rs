//! `struct sockaddr`: the bytes that name an endpoint, both ways.

use vstd::prelude::*;

use crate::net::bytes::{le16, le32, push_u16, push_u32, read_u16, read_u32, u16_at, u32_at};
use crate::net::endpoint::{Endpoint, IpAddress, IpEndpoint, LinkLevelEndpoint, NetlinkEndpoint};
use crate::syscall::SysError;

verus! {

pub const AF_UNSPEC: u16 = 0;
pub const AF_UNIX: u16 = 1;
pub const AF_INET: u16 = 2;
pub const AF_NETLINK: u16 = 16;
pub const AF_PACKET: u16 = 17;

/// The size of `struct sockaddr_in`, `sockaddr_ll` and `sockaddr_nl`.
pub const SOCKADDR_IN_LEN: usize = 16;
pub const SOCKADDR_LL_LEN: usize = 20;
pub const SOCKADDR_NL_LEN: usize = 12;

/// The size of the union of all address structures.
pub const SOCKADDR_LEN: usize = 110;

/// The length of the structure of an address family; `EINVAL` for the
/// others (Unix addresses among them).
pub open spec fn family_len(family: u16) -> Option<usize> {
    if family == AF_INET {
        Some(SOCKADDR_IN_LEN)
    } else if family == AF_PACKET {
        Some(SOCKADDR_LL_LEN)
    } else if family == AF_NETLINK {
        Some(SOCKADDR_NL_LEN)
    } else {
        None
    }
}

pub fn sockaddr_len(family: u16) -> (r: Result<usize, SysError>)
    ensures
        r == match family_len(family) {
            Some(n) => Ok::<usize, SysError>(n),
            None => Err(SysError::EINVAL),
        },
{
    if family == AF_INET {
        Ok(SOCKADDR_IN_LEN)
    } else if family == AF_PACKET {
        Ok(SOCKADDR_LL_LEN)
    } else if family == AF_NETLINK {
        Ok(SOCKADDR_NL_LEN)
    } else {
        Err(SysError::EINVAL)
    }
}

/// The bytes of `x` in network order.
pub open spec fn be16(x: u16) -> Seq<u8> {
    seq![((x >> 8) & 0xff) as u8, (x & 0xff) as u8]
}

/// The bytes of an endpoint's address structure. An unspecified address is
/// family 0 and zeros.
pub open spec fn sockaddr_bytes(ep: Endpoint) -> Seq<u8> {
    match ep {
        Endpoint::Ip(ip) => match ip.addr {
            IpAddress::Ipv4(a, b, c, d) => le16(AF_INET) + be16(ip.port) + seq![a, b, c, d] + Seq::new(8, |i: int| 0u8),
            _ => le16(AF_UNSPEC) + Seq::new(14, |i: int| 0u8),
        },
        Endpoint::LinkLevel(ll) => le16(AF_PACKET) + le16(0) + le32(ll.interface_index as u32) + le16(0)
            + seq![0u8, 0u8] + Seq::new(8, |i: int| 0u8),
        Endpoint::Netlink(nl) => le16(AF_NETLINK) + le16(0) + le32(nl.port_id) + le32(nl.multicast_groups_mask),
    }
}

fn push_zeros(v: &mut Vec<u8>, n: usize)
    ensures
        final(v)@ == old(v)@ + Seq::new(n as nat, |i: int| 0u8),
{
    let mut i: usize = 0;
    while i < n
        invariant
            i <= n,
            v@ == old(v)@ + Seq::new(i as nat, |k: int| 0u8),
        decreases n - i,
    {
        v.push(0);
        i = i + 1;
        assert(v@ =~= old(v)@ + Seq::new(i as nat, |k: int| 0u8));
    }
}

/// The address structure of an endpoint; an IP address of a version other
/// than 4 has none.
pub fn endpoint_to_sockaddr(ep: Endpoint) -> (v: Vec<u8>)
    requires
        !(ep matches Endpoint::Ip(ip) && ip.addr == IpAddress::Other),
    ensures
        v@ == sockaddr_bytes(ep),
{
    let mut v: Vec<u8> = Vec::new();
    match ep {
        Endpoint::Ip(ip) => match ip.addr {
            IpAddress::Ipv4(a, b, c, d) => {
                push_u16(&mut v, AF_INET);
                v.push(((ip.port >> 8) & 0xff) as u8);
                v.push((ip.port & 0xff) as u8);
                v.push(a);
                v.push(b);
                v.push(c);
                v.push(d);
                push_zeros(&mut v, 8);
            },
            _ => {
                push_u16(&mut v, AF_UNSPEC);
                push_zeros(&mut v, 14);
            },
        },
        Endpoint::LinkLevel(ll) => {
            push_u16(&mut v, AF_PACKET);
            push_u16(&mut v, 0);
            push_u32(&mut v, ll.interface_index as u32);
            push_u16(&mut v, 0);
            v.push(0);
            v.push(0);
            push_zeros(&mut v, 8);
        },
        Endpoint::Netlink(nl) => {
            push_u16(&mut v, AF_NETLINK);
            push_u16(&mut v, 0);
            push_u32(&mut v, nl.port_id);
            push_u32(&mut v, nl.multicast_groups_mask);
        },
    }
    assert(v@ =~= sockaddr_bytes(ep));
    v
}

/// The endpoint that the first `len` bytes of `bytes` name: the length
/// must cover the family and then the whole structure of that family; an
/// IPv4 address takes its port and address in network order.
pub open spec fn sockaddr_endpoint(bytes: Seq<u8>, len: usize) -> Result<Endpoint, SysError> {
    if len < 2 {
        Err(SysError::EINVAL)
    } else {
        let family = u16_at(bytes, 0);
        match family_len(family) {
            None => Err(SysError::EINVAL),
            Some(n) => if len < n {
                Err(SysError::EINVAL)
            } else if family == AF_INET {
                Ok(Endpoint::Ip(IpEndpoint {
                    addr: IpAddress::Ipv4(bytes[4], bytes[5], bytes[6], bytes[7]),
                    port: (bytes[2] * 256 + bytes[3]) as u16,
                }))
            } else if family == AF_PACKET {
                Ok(Endpoint::LinkLevel(LinkLevelEndpoint { interface_index: u32_at(bytes, 4) as usize }))
            } else {
                Ok(Endpoint::Netlink(NetlinkEndpoint { port_id: u32_at(bytes, 4), multicast_groups_mask: u32_at(bytes, 8) }))
            },
        }
    }
}

/// Reads the address structure that the caller passed with length `len`.
pub fn sockaddr_to_endpoint(bytes: &[u8], len: usize) -> (r: Result<Endpoint, SysError>)
    requires
        bytes@.len() == SOCKADDR_LEN,
    ensures
        r == sockaddr_endpoint(bytes@, len),
{
    if len < 2 {
        return Err(SysError::EINVAL);
    }
    let family = read_u16(bytes, 0);
    let n = sockaddr_len(family)?;
    if len < n {
        return Err(SysError::EINVAL);
    }
    if family == AF_INET {
        let port = (bytes[2] as u16) * 256 + bytes[3] as u16;
        Ok(Endpoint::Ip(IpEndpoint { addr: IpAddress::Ipv4(bytes[4], bytes[5], bytes[6], bytes[7]), port }))
    } else if family == AF_PACKET {
        Ok(Endpoint::LinkLevel(LinkLevelEndpoint::new(read_u32(bytes, 4) as usize)))
    } else {
        Ok(Endpoint::Netlink(NetlinkEndpoint::new(read_u32(bytes, 4), read_u32(bytes, 8))))
    }
}

/// What writing an endpoint to the caller leaves: the first
/// `min(max_len, full length)` bytes of its structure go to the buffer,
/// and the full length to the length word; an unspecified address has no
/// length (`EINVAL`).
pub open spec fn sockaddr_out(ep: Endpoint, max_addr_len: u32) -> Result<(Seq<u8>, u32), SysError> {
    let full = sockaddr_bytes(ep);
    match family_len(u16_at(full, 0)) {
        None => Err(SysError::EINVAL),
        Some(n) => Ok((full.take(if (max_addr_len as int) < n { max_addr_len as int } else { n as int }), n as u32)),
    }
}

/// Whether the result of writing an address is `out`, with the buffer by
/// its bytes.
pub open spec fn written_as(r: Result<(Vec<u8>, u32), SysError>, out: Result<(Seq<u8>, u32), SysError>) -> bool {
    match out {
        Ok((bytes, len)) => r matches Ok((v, l)) && v@ == bytes && l == len,
        Err(e) => r == Err::<(Vec<u8>, u32), SysError>(e),
    }
}

pub fn sockaddr_write(ep: Endpoint, max_addr_len: u32) -> (r: Result<(Vec<u8>, u32), SysError>)
    requires
        !(ep matches Endpoint::Ip(ip) && ip.addr == IpAddress::Other),
    ensures
        written_as(r, sockaddr_out(ep, max_addr_len)),
{
    let full = endpoint_to_sockaddr(ep);
    let family = read_u16(full.as_slice(), 0);
    let n = sockaddr_len(family)?;
    proof {
        assert(n <= full@.len()) by {
            lemma_u16_le16_roundtrip(AF_INET);
            lemma_u16_le16_roundtrip(AF_PACKET);
            lemma_u16_le16_roundtrip(AF_NETLINK);
            lemma_u16_le16_roundtrip(AF_UNSPEC);
        }
    }
    let k = if (max_addr_len as usize) < n { max_addr_len as usize } else { n };
    let mut v: Vec<u8> = Vec::new();
    let mut i: usize = 0;
    while i < k
        invariant
            i <= k,
            k <= full@.len(),
            v@ == full@.take(i as int),
        decreases k - i,
    {
        v.push(full[i]);
        i = i + 1;
        assert(v@ =~= full@.take(i as int));
    }
    Ok((v, n as u32))
}

/// Reading the two little-endian bytes of `x` gives `x`.
pub proof fn lemma_u16_le16_roundtrip(x: u16)
    ensures
        u16_at(le16(x), 0) == x,
{
    let s = le16(x);
    assert(s[0] == (x & 0xff) as u8 && s[1] == ((x >> 8) & 0xff) as u8);
    assert(((x & 0xff) as u8) as int + (((x >> 8) & 0xff) as u8) as int * 256 == x as int) by (bit_vector);
}

/// Reading the four little-endian bytes of `x` gives `x`.
pub proof fn lemma_u32_le32_roundtrip(x: u32)
    ensures
        u32_at(le32(x), 0) == x,
{
    let s = le32(x);
    assert(((x & 0xff) as u8) as int + (((x >> 8) & 0xff) as u8) as int * 256 + (((x >> 16) & 0xff) as u8) as int
        * 65536 + (((x >> 24) & 0xff) as u8) as int * 16777216 == x as int) by (bit_vector);
}

/// Whether an endpoint has an address structure that names it: an IPv4
/// address, an interface whose index fits in 32 bits, or a netlink port.
pub open spec fn nameable(ep: Endpoint) -> bool {
    match ep {
        Endpoint::Ip(ip) => ip.addr is Ipv4,
        Endpoint::LinkLevel(ll) => ll.interface_index <= u32::MAX,
        Endpoint::Netlink(_) => true,
    }
}

/// Reading back the address structure of an endpoint, within a union of any
/// later bytes and with its full length, gives the endpoint.
pub proof fn lemma_sockaddr_roundtrip(ep: Endpoint, rest: Seq<u8>)
    requires
        nameable(ep),
    ensures
        ({
            let bytes = sockaddr_bytes(ep) + rest;
            let n = family_len(u16_at(bytes, 0));
            n is Some && sockaddr_endpoint(bytes, n.unwrap()) == Ok::<Endpoint, SysError>(ep)
        }),
{
    let bytes = sockaddr_bytes(ep) + rest;
    match ep {
        Endpoint::Ip(ip) => {
            lemma_u16_le16_roundtrip(AF_INET);
            let p = ip.port;
            assert((((p >> 8) & 0xff) as u8) as int * 256 + ((p & 0xff) as u8) as int == p as int) by (bit_vector);
            assert(bytes[2] == ((p >> 8) & 0xff) as u8 && bytes[3] == (p & 0xff) as u8);
        },
        Endpoint::LinkLevel(ll) => {
            lemma_u16_le16_roundtrip(AF_PACKET);
            lemma_u32_le32_roundtrip(ll.interface_index as u32);
            assert(bytes.subrange(4, 8) =~= le32(ll.interface_index as u32));
            assert(u32_at(bytes, 4) == u32_at(le32(ll.interface_index as u32), 0));
        },
        Endpoint::Netlink(nl) => {
            lemma_u16_le16_roundtrip(AF_NETLINK);
            lemma_u32_le32_roundtrip(nl.port_id);
            lemma_u32_le32_roundtrip(nl.multicast_groups_mask);
            assert(u32_at(bytes, 4) == u32_at(le32(nl.port_id), 0));
            assert(u32_at(bytes, 8) == u32_at(le32(nl.multicast_groups_mask), 0));
        },
    }
}

} // verus!
