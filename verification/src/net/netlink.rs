//! The netlink route protocol: a request names the information that user
//! space wants (links or addresses), and the socket answers with one message
//! per interface or address and a final `Done` message.
//!
//! Every message is `| nlmsghdr | ifinfomsg/ifaddrmsg | rtattr | rtattr | ... |`,
//! with each part aligned to four bytes.

use vstd::prelude::*;

use super::bytes::{
    align4, align4_vec, le16, le32, push_bytes, push_u16, push_u32, read_u16, read_u32,
    set_le32, set_u32, u16_at, u32_at,
};
use super::endpoint::{Endpoint, NetlinkEndpoint};
use crate::syscall::{SysError, SysResult};

verus! {

/// Size of a netlink message header.
pub const NLMSG_HEADER_LEN: usize = 16;

/// Message type: nothing.
pub const NLMSG_NOOP: u16 = 1;
/// Message type: error.
pub const NLMSG_ERROR: u16 = 2;
/// Message type: end of a dump.
pub const NLMSG_DONE: u16 = 3;
/// Message type: data lost.
pub const NLMSG_OVERRUN: u16 = 4;
/// Message type: a new link.
pub const RTM_NEWLINK: u16 = 16;
/// Message type: a deleted link.
pub const RTM_DELLINK: u16 = 17;
/// Message type: a request for the links.
pub const RTM_GETLINK: u16 = 18;
/// Message type: a change of a link.
pub const RTM_SETLINK: u16 = 19;
/// Message type: a new address.
pub const RTM_NEWADDR: u16 = 20;
/// Message type: a deleted address.
pub const RTM_DELADDR: u16 = 21;
/// Message type: a request for the addresses.
pub const RTM_GETADDR: u16 = 22;

/// Header flag: part of a multi-part message.
pub const NLM_F_MULTI: u16 = 0x02;

/// Route attribute: hardware or protocol address.
pub const IFLA_ADDRESS: u16 = 1;
/// Route attribute: interface name.
pub const IFLA_IFNAME: u16 = 3;

/// Address family of IPv4 addresses.
pub const AF_INET: u8 = 2;

/// The header of a netlink message.
#[derive(Debug, Clone, Copy, PartialEq, Eq, Structural)]
pub struct NetlinkMessageHeader {
    /// length of the message, header included
    pub nlmsg_len: u32,
    /// message content
    pub nlmsg_type: u16,
    /// additional flags
    pub nlmsg_flags: u16,
    /// sequence number
    pub nlmsg_seq: u32,
    /// port id of the sending process
    pub nlmsg_pid: u32,
}

/// An address of a network interface.
#[derive(Debug, Clone)]
pub struct IfaceAddr {
    /// length of the network prefix, in bits
    pub prefix_len: u8,
    /// the bytes of the address
    pub address: Vec<u8>,
}

/// What the protocol reports of a network interface.
#[derive(Debug, Clone)]
pub struct IfaceInfo {
    /// the hardware (MAC) address
    pub mac: Vec<u8>,
    /// the interface's name
    pub name: Vec<u8>,
    /// the addresses assigned to the interface
    pub addrs: Vec<IfaceAddr>,
}

/// The encoding of a header.
pub open spec fn header_bytes(len: u32, ty: u16, flags: u16, seq: u32, pid: u32) -> Seq<u8> {
    le32(len) + le16(ty) + le16(flags) + le32(seq) + le32(pid)
}

/// The header at the start of a request.
pub open spec fn parse_header(data: Seq<u8>) -> NetlinkMessageHeader {
    NetlinkMessageHeader {
        nlmsg_len: u32_at(data, 0),
        nlmsg_type: u16_at(data, 4),
        nlmsg_flags: u16_at(data, 6),
        nlmsg_seq: u32_at(data, 8),
        nlmsg_pid: u32_at(data, 12),
    }
}

/// `n` reduced to 16 bits, as a length field stores it.
pub open spec fn trunc16(n: nat) -> u16 {
    (n % 65536) as u16
}

/// `n` reduced to 32 bits, as a length or index field stores it.
pub open spec fn trunc32(n: nat) -> u32 {
    (n % 0x1_0000_0000) as u32
}

/// A route attribute: its length (header included), its type and its payload.
pub open spec fn route_attr(ty: u16, payload: Seq<u8>) -> Seq<u8> {
    le16(trunc16(payload.len() + 4)) + le16(ty) + payload
}

/// Sets the length field of a message to the message's length.
pub open spec fn seal(msg: Seq<u8>) -> Seq<u8> {
    set_le32(msg, 0, trunc32(msg.len()))
}

/// The `ifinfomsg` of interface `index`.
pub open spec fn ifinfo_bytes(index: nat) -> Seq<u8> {
    le16(0) + le16(0) + le32(trunc32(index)) + le32(0) + le32(0)
}

/// The `ifaddrmsg` of an IPv4 address of interface `index`.
pub open spec fn ifaddr_bytes(prefix_len: u8, index: nat) -> Seq<u8> {
    seq![AF_INET, prefix_len, 0u8, 0u8] + le32(trunc32(index))
}

/// The `NewLink` message that describes interface `index`.
#[verifier::opaque]
pub open spec fn link_message(index: nat, mac: Seq<u8>, name: Seq<u8>, seq: u32, pid: u32) -> Seq<u8> {
    let body = align4(header_bytes(0, RTM_NEWLINK, NLM_F_MULTI, seq, pid)) + ifinfo_bytes(index);
    let attrs = align4(route_attr(IFLA_ADDRESS, mac)) + route_attr(IFLA_IFNAME, name);
    seal(align4(align4(body) + attrs))
}

/// The `NewAddr` message that describes one address of interface `index`.
#[verifier::opaque]
pub open spec fn addr_message(index: nat, prefix_len: u8, address: Seq<u8>, seq: u32, pid: u32) -> Seq<u8> {
    let body = align4(header_bytes(0, RTM_NEWADDR, NLM_F_MULTI, seq, pid)) + ifaddr_bytes(prefix_len, index);
    let attrs = route_attr(IFLA_ADDRESS, address);
    seal(align4(align4(body) + attrs))
}

/// The `Done` message that ends an answer.
pub open spec fn done_message(seq: u32, pid: u32) -> Seq<u8> {
    seal(align4(header_bytes(0, NLMSG_DONE, NLM_F_MULTI, seq, pid)))
}

/// The link messages of the first `n` interfaces.
pub open spec fn link_messages(ifaces: Seq<IfaceInfo>, n: nat, seq: u32, pid: u32) -> Seq<Seq<u8>> {
    Seq::new(n, |i: int| link_message(i as nat, ifaces[i].mac@, ifaces[i].name@, seq, pid))
}

/// The address messages of the first `n` addresses of interface `index`.
pub open spec fn iface_addr_messages(index: nat, iface: IfaceInfo, n: nat, seq: u32, pid: u32) -> Seq<Seq<u8>> {
    Seq::new(n, |j: int| addr_message(index, iface.addrs@[j].prefix_len, iface.addrs@[j].address@, seq, pid))
}

/// The address messages of all addresses of the first `n` interfaces, interface by interface.
pub open spec fn addr_messages(ifaces: Seq<IfaceInfo>, n: nat, seq: u32, pid: u32) -> Seq<Seq<u8>>
    decreases n,
{
    if n == 0 {
        Seq::empty()
    } else {
        let k = (n - 1) as nat;
        addr_messages(ifaces, k, seq, pid) + iface_addr_messages(k, ifaces[k as int], ifaces[k as int].addrs@.len(), seq, pid)
    }
}

/// The messages that answer a request with header `h`, `Done` last.
pub open spec fn response(h: NetlinkMessageHeader, ifaces: Seq<IfaceInfo>) -> Seq<Seq<u8>> {
    let dump = if h.nlmsg_type == RTM_GETLINK {
        link_messages(ifaces, ifaces.len(), h.nlmsg_seq, h.nlmsg_pid)
    } else if h.nlmsg_type == RTM_GETADDR {
        addr_messages(ifaces, ifaces.len(), h.nlmsg_seq, h.nlmsg_pid)
    } else {
        Seq::empty()
    };
    dump + seq![done_message(h.nlmsg_seq, h.nlmsg_pid)]
}

/// Every answer ends with one `Done` message for the request's sequence
/// number and port, after one message per interface for `RTM_GETLINK`, one
/// per address for `RTM_GETADDR`, and none for any other request.
pub proof fn lemma_response_ends_with_done(h: NetlinkMessageHeader, ifaces: Seq<IfaceInfo>)
    ensures
        response(h, ifaces).len() >= 1,
        response(h, ifaces).last() == done_message(h.nlmsg_seq, h.nlmsg_pid),
        h.nlmsg_type == RTM_GETLINK ==> response(h, ifaces).len() == ifaces.len() + 1,
        h.nlmsg_type != RTM_GETLINK && h.nlmsg_type != RTM_GETADDR ==> response(h, ifaces).len() == 1,
{
}

/// Whether a request is refused: it is shorter than a header, or its header
/// claims more bytes than it has.
pub open spec fn request_invalid(data: Seq<u8>) -> bool {
    data.len() < NLMSG_HEADER_LEN || parse_header(data).nlmsg_len > data.len()
}

/// The messages of a buffer, each by its bytes.
pub open spec fn messages_view(buffer: Seq<Vec<u8>>) -> Seq<Seq<u8>> {
    Seq::new(buffer.len(), |i: int| buffer[i]@)
}

proof fn lemma_view_push(prev: Seq<Vec<u8>>, msg: Vec<u8>)
    ensures
        messages_view(prev.push(msg)) == messages_view(prev).push(msg@),
{
    assert(messages_view(prev.push(msg)) =~= messages_view(prev).push(msg@));
}

/// A netlink socket: the messages of its last answer wait to be read.
#[derive(Debug, Clone)]
pub struct NetlinkSocketState {
    data: Vec<Vec<u8>>,
}

fn trunc16_exec(n: usize) -> (r: u16)
    ensures
        r == trunc16(n as nat),
{
    ((n as u64) % 65536) as u16
}

fn trunc32_exec(n: usize) -> (r: u32)
    ensures
        r == trunc32(n as nat),
{
    ((n as u64) % 0x1_0000_0000) as u32
}

fn push_header(v: &mut Vec<u8>, ty: u16, seq: u32, pid: u32)
    ensures
        final(v)@ == old(v)@ + header_bytes(0, ty, NLM_F_MULTI, seq, pid),
{
    push_u32(v, 0);
    push_u16(v, ty);
    push_u16(v, NLM_F_MULTI);
    push_u32(v, seq);
    push_u32(v, pid);
    assert(final(v)@ =~= old(v)@ + header_bytes(0, ty, NLM_F_MULTI, seq, pid));
}

fn push_route_attr(v: &mut Vec<u8>, ty: u16, payload: &[u8])
    ensures
        final(v)@ == old(v)@ + route_attr(ty, payload@),
{
    let len = trunc16_exec(payload.len() % 65536 + 4);
    assert(trunc16((payload.len() % 65536 + 4) as nat) == trunc16(payload@.len() + 4)) by {
        assert((payload.len() % 65536 + 4) % 65536 == (payload.len() + 4) % 65536);
    }
    push_u16(v, len);
    push_u16(v, ty);
    push_bytes(v, payload);
    assert(final(v)@ =~= old(v)@ + route_attr(ty, payload@));
}

fn seal_vec(msg: &mut Vec<u8>)
    requires
        old(msg).len() >= 4,
    ensures
        final(msg)@ == seal(old(msg)@),
{
    let len = trunc32_exec(msg.len());
    set_u32(msg, 0, len);
}

fn build_link_message(index: usize, iface: &IfaceInfo, seq: u32, pid: u32) -> (msg: Vec<u8>)
    ensures
        msg@ == link_message(index as nat, iface.mac@, iface.name@, seq, pid),
{
    reveal(link_message);
    let mut msg: Vec<u8> = Vec::new();
    push_header(&mut msg, RTM_NEWLINK, seq, pid);
    align4_vec(&mut msg);
    push_u16(&mut msg, 0);
    push_u16(&mut msg, 0);
    push_u32(&mut msg, trunc32_exec(index));
    push_u32(&mut msg, 0);
    push_u32(&mut msg, 0);
    let ghost body = align4(header_bytes(0, RTM_NEWLINK, NLM_F_MULTI, seq, pid)) + ifinfo_bytes(index as nat);
    assert(msg@ =~= body);
    let mut attrs: Vec<u8> = Vec::new();
    align4_vec(&mut attrs);
    assert(attrs@ =~= Seq::<u8>::empty()) by {
        assert(align4(Seq::<u8>::empty()) =~= Seq::<u8>::empty());
    }
    push_route_attr(&mut attrs, IFLA_ADDRESS, iface.mac.as_slice());
    align4_vec(&mut attrs);
    push_route_attr(&mut attrs, IFLA_IFNAME, iface.name.as_slice());
    assert(attrs@ =~= align4(route_attr(IFLA_ADDRESS, iface.mac@)) + route_attr(IFLA_IFNAME, iface.name@));
    align4_vec(&mut msg);
    let ghost before = msg@;
    push_bytes(&mut msg, attrs.as_slice());
    align4_vec(&mut msg);
    assert(msg@.len() >= 4);
    seal_vec(&mut msg);
    msg
}

fn build_addr_message(index: usize, addr: &IfaceAddr, seq: u32, pid: u32) -> (msg: Vec<u8>)
    ensures
        msg@ == addr_message(index as nat, addr.prefix_len, addr.address@, seq, pid),
{
    reveal(addr_message);
    let mut msg: Vec<u8> = Vec::new();
    push_header(&mut msg, RTM_NEWADDR, seq, pid);
    align4_vec(&mut msg);
    msg.push(AF_INET);
    msg.push(addr.prefix_len);
    msg.push(0);
    msg.push(0);
    push_u32(&mut msg, trunc32_exec(index));
    let ghost body = align4(header_bytes(0, RTM_NEWADDR, NLM_F_MULTI, seq, pid)) + ifaddr_bytes(addr.prefix_len, index as nat);
    assert(msg@ =~= body);
    let mut attrs: Vec<u8> = Vec::new();
    align4_vec(&mut attrs);
    assert(attrs@ =~= Seq::<u8>::empty()) by {
        assert(align4(Seq::<u8>::empty()) =~= Seq::<u8>::empty());
    }
    push_route_attr(&mut attrs, IFLA_ADDRESS, addr.address.as_slice());
    assert(attrs@ =~= route_attr(IFLA_ADDRESS, addr.address@));
    align4_vec(&mut msg);
    push_bytes(&mut msg, attrs.as_slice());
    align4_vec(&mut msg);
    assert(msg@.len() >= 4);
    seal_vec(&mut msg);
    msg
}

fn build_done_message(seq: u32, pid: u32) -> (msg: Vec<u8>)
    ensures
        msg@ == done_message(seq, pid),
{
    let mut msg: Vec<u8> = Vec::new();
    push_header(&mut msg, NLMSG_DONE, seq, pid);
    align4_vec(&mut msg);
    assert(msg@.len() >= 4);
    seal_vec(&mut msg);
    msg
}

/// Reads the header at the start of `data`.
pub fn read_header(data: &[u8]) -> (h: NetlinkMessageHeader)
    requires
        data.len() >= NLMSG_HEADER_LEN,
    ensures
        h == parse_header(data@),
{
    NetlinkMessageHeader {
        nlmsg_len: read_u32(data, 0),
        nlmsg_type: read_u16(data, 4),
        nlmsg_flags: read_u16(data, 6),
        nlmsg_seq: read_u32(data, 8),
        nlmsg_pid: read_u32(data, 12),
    }
}

impl NetlinkSocketState {
    pub fn new() -> (s: Self)
        ensures
            s.pending()@ == Seq::<Seq<u8>>::empty(),
    {
        let s = NetlinkSocketState { data: Vec::new() };
        assert(messages_view(s.data@) =~= Seq::<Seq<u8>>::empty());
        s
    }

    /// The messages that wait to be read, oldest first.
    pub closed spec fn pending(&self) -> Ghost<Seq<Seq<u8>>> {
        Ghost(messages_view(self.data@))
    }

    /// Takes a request. An invalid request is refused with `EINVAL` and
    /// changes nothing; any other request replaces the pending messages with
    /// its answer, which describes `ifaces`, and the whole request counts as
    /// written.
    pub fn write(&mut self, data: &[u8], ifaces: &[IfaceInfo]) -> (r: SysResult)
        ensures
            request_invalid(data@) ==> r == Err::<usize, SysError>(SysError::EINVAL)
                && final(self).pending()@ == old(self).pending()@,
            !request_invalid(data@) ==> r == Ok::<usize, SysError>(data.len())
                && final(self).pending()@ == response(parse_header(data@), ifaces@),
    {
        if data.len() < NLMSG_HEADER_LEN {
            return Err(SysError::EINVAL);
        }
        let header = read_header(data);
        if header.nlmsg_len as usize > data.len() {
            return Err(SysError::EINVAL);
        }
        let seq = header.nlmsg_seq;
        let pid = header.nlmsg_pid;
        let mut buffer: Vec<Vec<u8>> = Vec::new();
        if header.nlmsg_type == RTM_GETLINK {
            let mut i: usize = 0;
            while i < ifaces.len()
                invariant
                    i <= ifaces.len(),
                    messages_view(buffer@) == link_messages(ifaces@, i as nat, seq, pid),
                decreases ifaces.len() - i,
            {
                let msg = build_link_message(i, &ifaces[i], seq, pid);
                let ghost prev = buffer@;
                buffer.push(msg);
                proof {
                    lemma_view_push(prev, msg);
                    assert(link_messages(ifaces@, (i + 1) as nat, seq, pid) =~= link_messages(ifaces@, i as nat, seq, pid).push(msg@));
                }
                i = i + 1;
            }
        } else if header.nlmsg_type == RTM_GETADDR {
            let mut i: usize = 0;
            while i < ifaces.len()
                invariant
                    i <= ifaces.len(),
                    messages_view(buffer@) == addr_messages(ifaces@, i as nat, seq, pid),
                decreases ifaces.len() - i,
            {
                let iface = &ifaces[i];
                let ghost start = messages_view(buffer@);
                let mut j: usize = 0;
                while j < iface.addrs.len()
                    invariant
                        i < ifaces.len(),
                        iface == ifaces@[i as int],
                        j <= iface.addrs.len(),
                        messages_view(buffer@) == start + iface_addr_messages(i as nat, *iface, j as nat, seq, pid),
                    decreases iface.addrs.len() - j,
                {
                    let msg = build_addr_message(i, &iface.addrs[j], seq, pid);
                    let ghost prev = buffer@;
                    buffer.push(msg);
                    proof {
                        lemma_view_push(prev, msg);
                        assert(iface_addr_messages(i as nat, *iface, (j + 1) as nat, seq, pid) =~= iface_addr_messages(i as nat, *iface, j as nat, seq, pid).push(msg@));
                        assert(start + iface_addr_messages(i as nat, *iface, (j + 1) as nat, seq, pid) =~= (start + iface_addr_messages(i as nat, *iface, j as nat, seq, pid)).push(msg@));
                    }
                    j = j + 1;
                }
                i = i + 1;
                assert(messages_view(buffer@) =~= addr_messages(ifaces@, i as nat, seq, pid));
            }
        }
        let done = build_done_message(seq, pid);
        let ghost prev = buffer@;
        buffer.push(done);
        proof {
            lemma_view_push(prev, done);
            let h = parse_header(data@);
            assert(messages_view(buffer@) =~= response(h, ifaces@));
        }
        self.data = buffer;
        Ok(data.len())
    }

    /// Hands out the oldest pending message: as much of it as fits in `data`
    /// is copied to the front of `data`, and the copied length is returned.
    /// With nothing pending, nothing is copied and the length is 0. The peer
    /// is always the kernel's netlink port (port 0, no groups).
    pub fn read(&mut self, data: &mut Vec<u8>) -> (r: (SysResult, Endpoint))
        ensures
            r.1 == Endpoint::Netlink(NetlinkEndpoint { port_id: 0, multicast_groups_mask: 0 }),
            final(data)@.len() == old(data)@.len(),
            old(self).pending()@.len() == 0 ==> r.0 == Ok::<usize, SysError>(0)
                && final(self).pending()@ == old(self).pending()@
                && final(data)@ == old(data)@,
            old(self).pending()@.len() > 0 ==> {
                let msg = old(self).pending()@[0];
                let n = if msg.len() < old(data)@.len() { msg.len() } else { old(data)@.len() };
                &&& r.0 == Ok::<usize, SysError>(n as usize)
                &&& final(self).pending()@ == old(self).pending()@.drop_first()
                &&& final(data)@ == msg.subrange(0, n as int) + old(data)@.subrange(n as int, old(data)@.len() as int)
            },
    {
        let endpoint = Endpoint::Netlink(NetlinkEndpoint { port_id: 0, multicast_groups_mask: 0 });
        if self.data.len() > 0 {
            let msg = self.data.remove(0);
            let len = if msg.len() < data.len() { msg.len() } else { data.len() };
            let mut i: usize = 0;
            while i < len
                invariant
                    len <= msg@.len(),
                    len <= data@.len(),
                    data@.len() == old(data)@.len(),
                    i <= len,
                    data@ == msg@.subrange(0, i as int) + old(data)@.subrange(i as int, old(data)@.len() as int),
                decreases len - i,
            {
                data.set(i, msg[i]);
                i = i + 1;
                assert(data@ =~= msg@.subrange(0, i as int) + old(data)@.subrange(i as int, old(data)@.len() as int));
            }
            assert(messages_view(self.data@) =~= messages_view(old(self).data@).drop_first());
            (Ok(len), endpoint)
        } else {
            assert(data@ =~= old(data)@);
            (Ok(0), endpoint)
        }
    }
}

} // verus!
