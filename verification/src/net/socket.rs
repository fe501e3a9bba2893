//! The socket objects that stand beside the network stack's sockets: what
//! they remember, and what they decide from what the stack reports.
//!
//! The stack's socket is named by a handle; each decision takes what the
//! stack reported of it as plain values, and says what the caller does
//! next.

use vstd::prelude::*;

use crate::net::bytes::{read_u16, u16_at};
use crate::net::endpoint::{unspecified_ip_endpoint, Endpoint, IpAddress, IpEndpoint};
use crate::net::sockaddr::AF_INET;
use crate::syscall::net::{next_ephemeral_port, EphemeralPorts};
use crate::syscall::{SysError, SysResult};

verus! {

/// The states of a TCP connection.
#[derive(Debug, Clone, Copy, PartialEq, Eq, Structural)]
pub enum TcpState {
    Closed,
    Listen,
    SynSent,
    SynReceived,
    Established,
    FinWait1,
    FinWait2,
    CloseWait,
    Closing,
    LastAck,
    TimeWait,
}

impl TcpState {
    /// A connection is open in every state but `Closed` and `TimeWait`.
    pub open spec fn open(self) -> bool {
        self != TcpState::Closed && self != TcpState::TimeWait
    }

    /// An open connection that is past listening.
    pub open spec fn active(self) -> bool {
        self.open() && self != TcpState::Listen
    }

    pub fn is_open(&self) -> (b: bool)
        ensures
            b == self.open(),
    {
        match self {
            TcpState::Closed => false,
            TcpState::TimeWait => false,
            _ => true,
        }
    }

    pub fn is_active(&self) -> (b: bool)
        ensures
            b == self.active(),
    {
        match self {
            TcpState::Closed => false,
            TcpState::TimeWait => false,
            TcpState::Listen => false,
            _ => true,
        }
    }
}

/// What the stack reports of a TCP socket at one moment.
#[derive(Debug, Clone, Copy, PartialEq, Eq, Structural)]
pub struct TcpStatus {
    pub state: TcpState,
    /// room in the send buffer on a connection that may send
    pub can_send: bool,
    /// bytes in the receive buffer on a connection that may receive
    pub can_recv: bool,
    pub local_endpoint: IpEndpoint,
    pub remote_endpoint: IpEndpoint,
}

/// What a refused or broken connection reads: `ENOTCONN` from nowhere.
pub open spec fn not_connected() -> (SysResult, Endpoint) {
    (Err(SysError::ENOTCONN), unspecified_ip_endpoint())
}

/// Where a successful send leaves the caller: the count sent, else
/// `ENOBUFS`.
pub open spec fn sent_count(sent: Result<usize, ()>) -> SysResult {
    match sent {
        Ok(n) => Ok(n),
        Err(_) => Err(SysError::ENOBUFS),
    }
}

/// The answer to an operation that the stack carried out or refused with
/// `refusal`.
pub open spec fn done_or(r: Result<(), ()>, refusal: SysError) -> SysResult {
    match r {
        Ok(_) => Ok(0),
        Err(_) => Err(refusal),
    }
}

fn done_or_exec(r: Result<(), ()>, refusal: SysError) -> (s: SysResult)
    ensures
        s == done_or(r, refusal),
{
    match r {
        Ok(_) => Ok(0),
        Err(_) => Err(refusal),
    }
}

/// A TCP socket: the stack's socket, the address it was bound to, and
/// whether it listens.
#[derive(Debug, Clone, Copy)]
pub struct TcpSocketState {
    pub handle: usize,
    pub local_endpoint: Option<IpEndpoint>,
    pub is_listening: bool,
}

impl TcpSocketState {
    /// A socket over the stack's socket `handle`, unbound.
    pub fn new(handle: usize) -> (s: Self)
        ensures
            s.handle == handle,
            s.local_endpoint is None,
            !s.is_listening,
    {
        TcpSocketState { handle, local_endpoint: None, is_listening: false }
    }

    /// One look at the socket while `read` waits: a closed connection reads
    /// `ENOTCONN`; bytes received give their count and the peer; with none
    /// the reader waits for network activity (`None`).
    pub fn read_step(&self, status: &TcpStatus, received: Option<usize>) -> (r: Option<(SysResult, Endpoint)>)
        ensures
            r == if !status.state.open() {
                Some(not_connected())
            } else {
                match received {
                    Some(n) => if n > 0 {
                        Some((Ok::<usize, SysError>(n), Endpoint::Ip(status.remote_endpoint)))
                    } else {
                        None
                    },
                    None => None,
                }
            },
    {
        if !status.state.is_open() {
            return Some((Err(SysError::ENOTCONN), Endpoint::Ip(IpEndpoint { addr: IpAddress::Unspecified, port: 0 })));
        }
        match received {
            Some(n) => if n > 0 {
                Some((Ok(n), Endpoint::Ip(status.remote_endpoint)))
            } else {
                None
            },
            None => None,
        }
    }

    /// Whether `write` may hand bytes to the stack: `ENOTCONN` on a closed
    /// connection, `ENOBUFS` with no room.
    pub fn write_check(&self, status: &TcpStatus) -> (r: Result<(), SysError>)
        ensures
            r == if !status.state.open() {
                Err(SysError::ENOTCONN)
            } else if !status.can_send {
                Err(SysError::ENOBUFS)
            } else {
                Ok::<(), SysError>(())
            },
    {
        if !status.state.is_open() {
            Err(SysError::ENOTCONN)
        } else if !status.can_send {
            Err(SysError::ENOBUFS)
        } else {
            Ok(())
        }
    }

    /// What `write` returns once the stack took the bytes or refused them.
    pub fn write_result(&self, sent: Result<usize, ()>) -> (r: SysResult)
        ensures
            r == sent_count(sent),
    {
        match sent {
            Ok(n) => Ok(n),
            Err(_) => Err(SysError::ENOBUFS),
        }
    }

    /// Readiness `(in, out, err)`: a listener with a connection to accept
    /// is readable; a closed connection is in error; else as the buffers
    /// allow.
    pub fn poll(&self, status: &TcpStatus) -> (r: (bool, bool, bool))
        ensures
            r == if self.is_listening && status.state.active() {
                (true, false, false)
            } else if !status.state.open() {
                (false, false, true)
            } else {
                (status.can_recv, status.can_send, false)
            },
    {
        if self.is_listening && status.state.is_active() {
            (true, false, false)
        } else if !status.state.is_open() {
            (false, false, true)
        } else {
            (status.can_recv, status.can_send, false)
        }
    }

    /// Where `connect` goes: an IP endpoint, from a fresh ephemeral port;
    /// `EINVAL` (and no port taken) for another endpoint.
    pub fn connect_target(&self, endpoint: Endpoint, ports: &mut EphemeralPorts, random: usize) -> (r: Result<
        (IpEndpoint, u16),
        SysError,
    >)
        requires
            old(ports).wf(),
        ensures
            final(ports).wf(),
            match endpoint {
                Endpoint::Ip(ip) => {
                    &&& r == Ok::<(IpEndpoint, u16), SysError>((ip, next_ephemeral_port(old(ports).last, random)))
                    &&& final(ports).last == next_ephemeral_port(old(ports).last, random)
                },
                _ => r == Err::<(IpEndpoint, u16), SysError>(SysError::EINVAL) && final(ports).last == old(ports).last,
            },
    {
        match endpoint {
            Endpoint::Ip(ip) => {
                let port = ports.get_ephemeral_port(random);
                Ok((ip, port))
            },
            _ => Err(SysError::EINVAL),
        }
    }

    /// `ENOBUFS` where the stack could not start the connection.
    pub fn connect_started(&self, started: Result<(), ()>) -> (r: Result<(), SysError>)
        ensures
            r == match started {
                Ok(_) => Ok::<(), SysError>(()),
                Err(_) => Err(SysError::ENOBUFS),
            },
    {
        match started {
            Ok(_) => Ok(()),
            Err(_) => Err(SysError::ENOBUFS),
        }
    }

    /// One look at a connection being made: still `SynSent` waits
    /// (`None`); `Established` connects; any other state is a refusal.
    pub fn connect_wait_step(&self, state: TcpState) -> (r: Option<SysResult>)
        ensures
            r == match state {
                TcpState::SynSent => None,
                TcpState::Established => Some(Ok::<usize, SysError>(0)),
                _ => Some(Err(SysError::ECONNREFUSED)),
            },
    {
        match state {
            TcpState::SynSent => None,
            TcpState::Established => Some(Ok(0)),
            _ => Some(Err(SysError::ECONNREFUSED)),
        }
    }

    /// Binds to an IP endpoint, taking an ephemeral port where it names
    /// port 0; the socket stops listening. `EINVAL` for another endpoint.
    pub fn bind(&mut self, endpoint: Endpoint, ports: &mut EphemeralPorts, random: usize) -> (r: SysResult)
        requires
            old(ports).wf(),
        ensures
            final(ports).wf(),
            final(self).handle == old(self).handle,
            match endpoint {
                Endpoint::Ip(ip) => {
                    let port = if ip.port == 0 { next_ephemeral_port(old(ports).last, random) } else { ip.port };
                    &&& r == Ok::<usize, SysError>(0)
                    &&& final(self).local_endpoint == Some(IpEndpoint { port, ..ip })
                    &&& !final(self).is_listening
                    &&& final(ports).last == if ip.port == 0 { port } else { old(ports).last }
                },
                _ => {
                    &&& r == Err::<usize, SysError>(SysError::EINVAL)
                    &&& final(self).local_endpoint == old(self).local_endpoint
                    &&& final(self).is_listening == old(self).is_listening
                    &&& final(ports).last == old(ports).last
                },
            },
    {
        match endpoint {
            Endpoint::Ip(ip) => {
                let mut ip = ip;
                if ip.port == 0 {
                    ip.port = ports.get_ephemeral_port(random);
                }
                self.local_endpoint = Some(ip);
                self.is_listening = false;
                Ok(0)
            },
            _ => Err(SysError::EINVAL),
        }
    }

    /// What `listen` asks of the stack: nothing where the socket (or the
    /// stack's socket) already listens, `EINVAL` where it is unbound, else to
    /// listen on its address.
    pub fn listen_plan(&self, stack_listening: bool) -> (r: Result<Option<IpEndpoint>, SysError>)
        ensures
            r == if self.is_listening {
                Ok::<Option<IpEndpoint>, SysError>(None)
            } else {
                match self.local_endpoint {
                    None => Err(SysError::EINVAL),
                    Some(ep) => if stack_listening { Ok(None) } else { Ok(Some(ep)) },
                }
            },
    {
        if self.is_listening {
            return Ok(None);
        }
        match self.local_endpoint {
            None => Err(SysError::EINVAL),
            Some(ep) => if stack_listening {
                Ok(None)
            } else {
                Ok(Some(ep))
            },
        }
    }

    /// After the stack was asked to listen: the socket listens, or
    /// `EINVAL`.
    pub fn listen_result(&mut self, started: Result<(), ()>) -> (r: SysResult)
        ensures
            r == done_or(started, SysError::EINVAL),
            final(self).handle == old(self).handle,
            final(self).local_endpoint == old(self).local_endpoint,
            final(self).is_listening == (old(self).is_listening || started is Ok),
    {
        let r = done_or_exec(started, SysError::EINVAL);
        if started.is_ok() {
            self.is_listening = true;
        }
        r
    }

    /// The address that `accept` listens on again: `EINVAL` where the
    /// socket is unbound.
    pub fn accept_endpoint(&self) -> (r: Result<IpEndpoint, SysError>)
        ensures
            r == match self.local_endpoint {
                Some(ep) => Ok::<IpEndpoint, SysError>(ep),
                None => Err(SysError::EINVAL),
            },
    {
        match self.local_endpoint {
            Some(ep) => Ok(ep),
            None => Err(SysError::EINVAL),
        }
    }

    /// Accepting a connection that the stack's socket holds: that socket
    /// goes to the returned, non-listening socket, and this one carries on
    /// with the fresh listening socket `new_handle`.
    pub fn accept_swap(&mut self, new_handle: usize) -> (accepted: TcpSocketState)
        ensures
            accepted.handle == old(self).handle,
            accepted.local_endpoint == old(self).local_endpoint,
            !accepted.is_listening,
            final(self).handle == new_handle,
            final(self).local_endpoint == old(self).local_endpoint,
            final(self).is_listening == old(self).is_listening,
    {
        let old_handle = self.handle;
        self.handle = new_handle;
        TcpSocketState { handle: old_handle, local_endpoint: self.local_endpoint, is_listening: false }
    }

    /// The local address: the one bound, else the stack's where it has a
    /// port.
    pub fn endpoint(&self, stack_local: IpEndpoint) -> (r: Option<Endpoint>)
        ensures
            r == match self.local_endpoint {
                Some(e) => Some(Endpoint::Ip(e)),
                None => if stack_local.port != 0 { Some(Endpoint::Ip(stack_local)) } else { None },
            },
    {
        match self.local_endpoint {
            Some(e) => Some(Endpoint::Ip(e)),
            None => if stack_local.port != 0 {
                Some(Endpoint::Ip(stack_local))
            } else {
                None
            },
        }
    }

    /// The peer of an open connection.
    pub fn remote_endpoint(&self, status: &TcpStatus) -> (r: Option<Endpoint>)
        ensures
            r == if status.state.open() { Some(Endpoint::Ip(status.remote_endpoint)) } else { None },
    {
        if status.state.is_open() {
            Some(Endpoint::Ip(status.remote_endpoint))
        } else {
            None
        }
    }
}

/// The `ioctl` that reads the ARP cache.
pub const SIOCGARP: usize = 0x8954;

/// The size of an ARP request (`struct arpreq`): the protocol address,
/// the hardware address, the flags, the netmask and the device name.
pub const ARPREQ_LEN: usize = 68;

/// Where the device name of an ARP request starts, and its size.
pub const ARPREQ_DEV: usize = 52;
pub const ARPREQ_DEV_LEN: usize = 16;

/// Where the hardware address goes in an ARP request.
pub const ARPREQ_HA_DATA: usize = 18;

/// The device name of an ARP request: its bytes up to the first NUL, which
/// lies within the name field at `dev_len`.
pub open spec fn arp_dev_name(req: Seq<u8>, dev_len: int) -> bool {
    &&& 0 <= dev_len < ARPREQ_DEV_LEN
    &&& req[ARPREQ_DEV + dev_len] == 0
    &&& forall|i: int| ARPREQ_DEV <= i < ARPREQ_DEV + dev_len ==> req[i] != 0
}

/// What an `ioctl` on a UDP socket does next.
#[derive(Debug, Clone, Copy, PartialEq, Eq)]
pub enum IoctlAction {
    /// It is answered at once.
    Done(SysResult),
    /// The ARP cache of interface `iface` is asked for the hardware address
    /// of `addr`.
    LookupArp { iface: usize, addr: [u8; 4] },
}

/// A UDP socket: the stack's socket and the peer it was connected to.
#[derive(Debug, Clone, Copy)]
pub struct UdpSocketState {
    pub handle: usize,
    pub remote_endpoint: Option<IpEndpoint>,
}

/// Where a datagram goes, and the ephemeral port to bind first where the
/// socket has none.
#[derive(Debug, Clone, Copy, PartialEq, Eq, Structural)]
pub struct UdpSend {
    pub to: IpEndpoint,
    pub bind_port: Option<u16>,
}

impl UdpSocketState {
    /// A socket over the stack's socket `handle`, unconnected.
    pub fn new(handle: usize) -> (s: Self)
        ensures
            s.handle == handle,
            s.remote_endpoint is None,
    {
        UdpSocketState { handle, remote_endpoint: None }
    }

    /// One look at the socket while `read` waits: a closed socket reads
    /// `ENOTCONN`; a datagram gives its size and sender; with none the
    /// reader waits (`None`).
    pub fn read_step(&self, open: bool, received: Option<(usize, IpEndpoint)>) -> (r: Option<(SysResult, Endpoint)>)
        ensures
            r == if !open {
                Some(not_connected())
            } else {
                match received {
                    Some((n, from)) => Some((Ok::<usize, SysError>(n), Endpoint::Ip(from))),
                    None => None,
                }
            },
    {
        if !open {
            return Some((Err(SysError::ENOTCONN), Endpoint::Ip(IpEndpoint { addr: IpAddress::Unspecified, port: 0 })));
        }
        match received {
            Some((n, from)) => Some((Ok(n), Endpoint::Ip(from))),
            None => None,
        }
    }

    /// Where `write` sends: the given IP endpoint, else the connected peer,
    /// else `ENOTCONN`; a socket without a local port (`bound_port` 0)
    /// first binds a fresh ephemeral one.
    pub fn write_plan(&self, sendto: Option<Endpoint>, bound_port: u16, ports: &mut EphemeralPorts, random: usize) -> (r:
        Result<UdpSend, SysError>)
        requires
            old(ports).wf(),
        ensures
            final(ports).wf(),
            ({
                let to = match sendto {
                    Some(Endpoint::Ip(ep)) => Some(ep),
                    _ => self.remote_endpoint,
                };
                match to {
                    None => r == Err::<UdpSend, SysError>(SysError::ENOTCONN) && final(ports).last == old(ports).last,
                    Some(ep) => if bound_port == 0 {
                        &&& r == Ok::<UdpSend, SysError>(
                            UdpSend { to: ep, bind_port: Some(next_ephemeral_port(old(ports).last, random)) },
                        )
                        &&& final(ports).last == next_ephemeral_port(old(ports).last, random)
                    } else {
                        r == Ok::<UdpSend, SysError>(UdpSend { to: ep, bind_port: None }) && final(ports).last
                            == old(ports).last
                    },
                }
            }),
    {
        let to = match sendto {
            Some(Endpoint::Ip(ep)) => ep,
            _ => match self.remote_endpoint {
                Some(ep) => ep,
                None => return Err(SysError::ENOTCONN),
            },
        };
        if bound_port == 0 {
            let port = ports.get_ephemeral_port(random);
            Ok(UdpSend { to, bind_port: Some(port) })
        } else {
            Ok(UdpSend { to, bind_port: None })
        }
    }

    /// What `write` returns: `ENOBUFS` without room or where the stack
    /// refused the datagram, else the whole length.
    pub fn write_result(&self, can_send: bool, sent: Result<(), ()>, len: usize) -> (r: SysResult)
        ensures
            r == if can_send && sent is Ok { Ok::<usize, SysError>(len) } else { Err(SysError::ENOBUFS) },
    {
        if can_send && sent.is_ok() {
            Ok(len)
        } else {
            Err(SysError::ENOBUFS)
        }
    }

    /// Readiness `(in, out, err)`: as the buffers allow; never in error.
    pub fn poll(&self, can_recv: bool, can_send: bool) -> (r: (bool, bool, bool))
        ensures
            r == (can_recv, can_send, false),
    {
        (can_recv, can_send, false)
    }

    /// Remembers the peer of an IP endpoint; `EINVAL` for another.
    pub fn connect(&mut self, endpoint: Endpoint) -> (r: SysResult)
        ensures
            final(self).handle == old(self).handle,
            match endpoint {
                Endpoint::Ip(ip) => r == Ok::<usize, SysError>(0) && final(self).remote_endpoint == Some(ip),
                _ => r == Err::<usize, SysError>(SysError::EINVAL) && final(self).remote_endpoint
                    == old(self).remote_endpoint,
            },
    {
        match endpoint {
            Endpoint::Ip(ip) => {
                self.remote_endpoint = Some(ip);
                Ok(0)
            },
            _ => Err(SysError::EINVAL),
        }
    }

    /// The address that `bind` asks the stack for: `EINVAL` for an endpoint
    /// that is not IP.
    pub fn bind_target(&self, endpoint: Endpoint) -> (r: Result<IpEndpoint, SysError>)
        ensures
            r == match endpoint {
                Endpoint::Ip(ip) => Ok::<IpEndpoint, SysError>(ip),
                _ => Err(SysError::EINVAL),
            },
    {
        match endpoint {
            Endpoint::Ip(ip) => Ok(ip),
            _ => Err(SysError::EINVAL),
        }
    }

    /// What `bind` returns once the stack bound the socket or refused.
    pub fn bind_result(&self, bound: Result<(), ()>) -> (r: SysResult)
        ensures
            r == done_or(bound, SysError::EINVAL),
    {
        done_or_exec(bound, SysError::EINVAL)
    }

    /// `ioctl`: only `SIOCGARP` does anything. Its request (`req`) must
    /// name an IPv4 protocol address (else `EINVAL`) and a device among
    /// `ifnames` (else `ENOENT`); the first interface of that name is asked.
    pub fn ioctl_plan(&self, request: usize, req: &[u8], ifnames: &Vec<Vec<u8>>) -> (r: IoctlAction)
        requires
            request == SIOCGARP ==> req@.len() == ARPREQ_LEN && exists|k: int| arp_dev_name(req@, k),
        ensures
            request != SIOCGARP ==> r == IoctlAction::Done(Ok(0)),
            request == SIOCGARP ==> {
                let dev_len = choose|k: int| arp_dev_name(req@, k);
                let name = req@.subrange(ARPREQ_DEV as int, ARPREQ_DEV + dev_len);
                if u16_at(req@, 0) != AF_INET as u16 {
                    r == IoctlAction::Done(Err(SysError::EINVAL))
                } else {
                    match r {
                        IoctlAction::LookupArp { iface, addr } => {
                            &&& iface < ifnames@.len()
                            &&& ifnames@[iface as int]@ == name
                            &&& forall|j: int| 0 <= j < iface ==> ifnames@[j]@ != name
                            &&& addr@ == req@.subrange(4, 8)
                        },
                        IoctlAction::Done(res) => {
                            &&& res == Err::<usize, SysError>(SysError::ENOENT)
                            &&& forall|j: int| 0 <= j < ifnames@.len() ==> ifnames@[j]@ != name
                        },
                    }
                }
            },
    {
        if request != SIOCGARP {
            return IoctlAction::Done(Ok(0));
        }
        let family = read_u16(req, 0);
        if family != AF_INET as u16 {
            return IoctlAction::Done(Err(SysError::EINVAL));
        }
        let ghost dev_len = choose|k: int| arp_dev_name(req@, k);
        let mut n: usize = 0;
        while n < ARPREQ_DEV_LEN && req[ARPREQ_DEV + n] != 0
            invariant
                n <= dev_len,
                req@.len() == ARPREQ_LEN,
                arp_dev_name(req@, dev_len),
            decreases ARPREQ_DEV_LEN - n,
        {
            n = n + 1;
        }
        assert(n == dev_len);
        let mut name: Vec<u8> = Vec::new();
        let mut i: usize = 0;
        while i < n
            invariant
                i <= n,
                n == dev_len,
                req@.len() == ARPREQ_LEN,
                0 <= dev_len < ARPREQ_DEV_LEN,
                name@ == req@.subrange(ARPREQ_DEV as int, ARPREQ_DEV + i),
            decreases n - i,
        {
            name.push(req[ARPREQ_DEV + i]);
            i = i + 1;
            assert(name@ =~= req@.subrange(ARPREQ_DEV as int, ARPREQ_DEV + i));
        }
        let addr = [req[4], req[5], req[6], req[7]];
        assert(addr@ =~= req@.subrange(4, 8));
        let mut j: usize = 0;
        while j < ifnames.len()
            invariant
                j <= ifnames@.len(),
                forall|k: int| 0 <= k < j ==> ifnames@[k]@ != name@,
                request == SIOCGARP,
                dev_len == choose|k: int| arp_dev_name(req@, k),
                name@ == req@.subrange(ARPREQ_DEV as int, ARPREQ_DEV + dev_len),
                addr@ == req@.subrange(4, 8),
                u16_at(req@, 0) == AF_INET as u16,
            decreases ifnames@.len() - j,
        {
            if bytes_equal(ifnames[j].as_slice(), name.as_slice()) {
                return IoctlAction::LookupArp { iface: j, addr };
            }
            j = j + 1;
        }
        IoctlAction::Done(Err(SysError::ENOENT))
    }

    /// The answer of an ARP lookup: the hardware address goes into the
    /// request, or `ENOENT` where the cache has none.
    pub fn arp_answer(&self, req: &mut Vec<u8>, mac: Option<[u8; 6]>) -> (r: SysResult)
        requires
            old(req)@.len() == ARPREQ_LEN,
        ensures
            match mac {
                Some(m) => {
                    &&& r == Ok::<usize, SysError>(0)
                    &&& final(req)@ == old(req)@.subrange(0, ARPREQ_HA_DATA as int) + m@ + old(req)@.subrange(
                        ARPREQ_HA_DATA + 6,
                        ARPREQ_LEN as int,
                    )
                },
                None => r == Err::<usize, SysError>(SysError::ENOENT) && final(req)@ == old(req)@,
            },
    {
        match mac {
            Some(m) => {
                let mut i: usize = 0;
                while i < 6
                    invariant
                        i <= 6,
                        req@.len() == ARPREQ_LEN,
                        forall|j: int|
                            0 <= j < ARPREQ_LEN && !(ARPREQ_HA_DATA <= j < ARPREQ_HA_DATA + i) ==> req@[j] == old(
                                req,
                            )@[j],
                        forall|j: int| ARPREQ_HA_DATA <= j < ARPREQ_HA_DATA + i ==> req@[j] == m@[j - ARPREQ_HA_DATA],
                    decreases 6 - i,
                {
                    req.set(ARPREQ_HA_DATA + i, m[i]);
                    i = i + 1;
                }
                assert(req@ =~= old(req)@.subrange(0, ARPREQ_HA_DATA as int) + m@ + old(req)@.subrange(
                    ARPREQ_HA_DATA + 6,
                    ARPREQ_LEN as int,
                ));
                Ok(0)
            },
            None => Err(SysError::ENOENT),
        }
    }

    /// The local address: the stack's, where it has a port.
    pub fn endpoint(&self, stack_local: IpEndpoint) -> (r: Option<Endpoint>)
        ensures
            r == if stack_local.port != 0 { Some(Endpoint::Ip(stack_local)) } else { None },
    {
        if stack_local.port != 0 {
            Some(Endpoint::Ip(stack_local))
        } else {
            None
        }
    }

    /// The peer it was connected to.
    pub fn remote_endpoint(&self) -> (r: Option<Endpoint>)
        ensures
            r == match self.remote_endpoint {
                Some(e) => Some(Endpoint::Ip(e)),
                None => None,
            },
    {
        match self.remote_endpoint {
            Some(e) => Some(Endpoint::Ip(e)),
            None => None,
        }
    }
}

fn bytes_equal(a: &[u8], b: &[u8]) -> (r: bool)
    ensures
        r == (a@ == b@),
{
    if a.len() != b.len() {
        return false;
    }
    let mut i: usize = 0;
    while i < a.len()
        invariant
            i <= a@.len(),
            a@.len() == b@.len(),
            forall|j: int| 0 <= j < i ==> a@[j] == b@[j],
        decreases a@.len() - i,
    {
        if a[i] != b[i] {
            return false;
        }
        i = i + 1;
    }
    assert(a@ =~= b@);
    true
}

/// The protocol level of IP options, and the option by which a raw socket
/// supplies its own IP header.
pub const IPPROTO_IP: usize = 0;
pub const IP_HDRINCL: usize = 3;

/// A raw IP socket: the stack's socket, and whether the caller writes the
/// IP header itself.
#[derive(Debug, Clone, Copy)]
pub struct RawSocketState {
    pub handle: usize,
    pub header_included: bool,
}

impl RawSocketState {
    /// A socket over the stack's socket `handle`; the kernel writes the
    /// header.
    pub fn new(handle: usize) -> (s: Self)
        ensures
            s.handle == handle,
            !s.header_included,
    {
        RawSocketState { handle, header_included: false }
    }

    /// What `read` returns for a packet of `size` bytes read into `data`:
    /// the size, and its sender taken from the IPv4 header.
    pub fn read_result(&self, data: &[u8], size: usize) -> (r: (SysResult, Endpoint))
        requires
            data@.len() >= 16,
        ensures
            r == (Ok::<usize, SysError>(size), Endpoint::Ip(
                IpEndpoint { addr: IpAddress::Ipv4(data@[12], data@[13], data@[14], data@[15]), port: 0 },
            )),
    {
        (Ok(size), Endpoint::Ip(IpEndpoint { addr: IpAddress::Ipv4(data[12], data[13], data[14], data[15]), port: 0 }))
    }

    /// What `write` returns: the whole length where the stack took the
    /// packet, else `ENOBUFS`.
    pub fn write_result(&self, sent: Result<(), ()>, len: usize) -> (r: SysResult)
        ensures
            r == match sent {
                Ok(_) => Ok::<usize, SysError>(len),
                Err(_) => Err(SysError::ENOBUFS),
            },
    {
        match sent {
            Ok(_) => Ok(len),
            Err(_) => Err(SysError::ENOBUFS),
        }
    }

    /// `setsockopt`: `IP_HDRINCL` with a value says whether the caller
    /// writes the header (its first byte is nonzero); everything else is
    /// accepted and ignored.
    pub fn setsockopt(&mut self, level: usize, opt: usize, data: &[u8]) -> (r: SysResult)
        ensures
            r == Ok::<usize, SysError>(0),
            final(self).handle == old(self).handle,
            final(self).header_included == if level == IPPROTO_IP && opt == IP_HDRINCL && data@.len() > 0 {
                data@[0] > 0
            } else {
                old(self).header_included
            },
    {
        if level == IPPROTO_IP && opt == IP_HDRINCL && data.len() > 0 {
            self.header_included = data[0] > 0;
        }
        Ok(0)
    }
}

/// A packet socket: it keeps nothing, and sends frames out of an interface.
#[derive(Debug, Clone, Copy)]
pub struct PacketSocketState {}

impl PacketSocketState {
    pub fn new() -> (s: Self) {
        PacketSocketState {}
    }

    /// Where `write` sends: the interface of a link-level endpoint;
    /// `ENOTCONN` for another endpoint or none.
    pub fn write_target(&self, sendto: Option<Endpoint>) -> (r: Result<usize, SysError>)
        ensures
            r == match sendto {
                Some(Endpoint::LinkLevel(ll)) => Ok::<usize, SysError>(ll.interface_index),
                _ => Err(SysError::ENOTCONN),
            },
    {
        match sendto {
            Some(Endpoint::LinkLevel(ll)) => Ok(ll.interface_index),
            _ => Err(SysError::ENOTCONN),
        }
    }

    /// What `write` returns: the length that the interface sent, or
    /// `ENOBUFS`.
    pub fn write_result(&self, sent: Option<usize>) -> (r: SysResult)
        ensures
            r == match sent {
                Some(n) => Ok::<usize, SysError>(n),
                None => Err(SysError::ENOBUFS),
            },
    {
        match sent {
            Some(n) => Ok(n),
            None => Err(SysError::ENOBUFS),
        }
    }
}

} // verus!
