use rcore::net::endpoint::{Endpoint, IpAddress, IpEndpoint, LinkLevelEndpoint, NetlinkEndpoint};
use rcore::net::server::{greeting, http_response, server_runs, server_step, ServerStep, ServerView};
use rcore::net::socket::{
    IoctlAction, PacketSocketState, RawSocketState, TcpSocketState, TcpState, TcpStatus, UdpSend, UdpSocketState,
    ARPREQ_LEN, IPPROTO_IP, IP_HDRINCL, SIOCGARP,
};
use rcore::syscall::net::EphemeralPorts;
use rcore::syscall::SysError;

fn ip(a: u8, port: u16) -> IpEndpoint {
    IpEndpoint { addr: IpAddress::Ipv4(10, 0, 0, a), port }
}

fn status(state: TcpState, can_send: bool, can_recv: bool) -> TcpStatus {
    TcpStatus { state, can_send, can_recv, local_endpoint: ip(1, 80), remote_endpoint: ip(2, 5000) }
}

const UNSPECIFIED: Endpoint = Endpoint::Ip(IpEndpoint { addr: IpAddress::Unspecified, port: 0 });

#[test]
fn tcp_states() {
    assert!(!TcpState::Closed.is_open());
    assert!(!TcpState::TimeWait.is_open());
    assert!(TcpState::Listen.is_open());
    assert!(!TcpState::Listen.is_active());
    assert!(TcpState::CloseWait.is_active());
}

#[test]
fn tcp_read_and_write() {
    let s = TcpSocketState::new(4);
    let est = status(TcpState::Established, true, true);
    assert_eq!(s.read_step(&est, Some(10)), Some((Ok(10), Endpoint::Ip(ip(2, 5000)))));
    assert_eq!(s.read_step(&est, Some(0)), None);
    assert_eq!(s.read_step(&est, None), None);
    let closed = status(TcpState::Closed, false, false);
    assert_eq!(s.read_step(&closed, Some(10)), Some((Err(SysError::ENOTCONN), UNSPECIFIED)));
    assert_eq!(s.write_check(&est), Ok(()));
    assert_eq!(s.write_check(&status(TcpState::Established, false, true)), Err(SysError::ENOBUFS));
    assert_eq!(s.write_check(&closed), Err(SysError::ENOTCONN));
    assert_eq!(s.write_result(Ok(7)), Ok(7));
    assert_eq!(s.write_result(Err(())), Err(SysError::ENOBUFS));
}

#[test]
fn tcp_poll() {
    let mut s = TcpSocketState::new(4);
    assert_eq!(s.poll(&status(TcpState::Established, true, false)), (false, true, false));
    assert_eq!(s.poll(&status(TcpState::TimeWait, true, true)), (false, false, true));
    s.is_listening = true;
    assert_eq!(s.poll(&status(TcpState::SynReceived, false, false)), (true, false, false));
    assert_eq!(s.poll(&status(TcpState::Listen, false, false)), (false, false, false));
}

#[test]
fn tcp_connect() {
    let s = TcpSocketState::new(4);
    let mut ports = EphemeralPorts::new();
    assert_eq!(s.connect_target(Endpoint::Ip(ip(2, 22)), &mut ports, 0), Ok((ip(2, 22), 49153)));
    assert_eq!(s.connect_target(Endpoint::LinkLevel(LinkLevelEndpoint::new(0)), &mut ports, 0), Err(SysError::EINVAL));
    assert_eq!(ports.last, 49153);
    assert_eq!(s.connect_started(Err(())), Err(SysError::ENOBUFS));
    assert_eq!(s.connect_started(Ok(())), Ok(()));
    assert_eq!(s.connect_wait_step(TcpState::SynSent), None);
    assert_eq!(s.connect_wait_step(TcpState::Established), Some(Ok(0)));
    assert_eq!(s.connect_wait_step(TcpState::Closed), Some(Err(SysError::ECONNREFUSED)));
}

#[test]
fn tcp_bind_listen_accept() {
    let mut s = TcpSocketState::new(4);
    let mut ports = EphemeralPorts { last: 60000 };
    assert_eq!(s.listen_plan(false), Err(SysError::EINVAL));
    assert_eq!(s.accept_endpoint(), Err(SysError::EINVAL));
    assert_eq!(s.bind(Endpoint::Netlink(NetlinkEndpoint::new(1, 0)), &mut ports, 0), Err(SysError::EINVAL));
    assert_eq!(s.bind(Endpoint::Ip(ip(1, 0)), &mut ports, 0), Ok(0));
    assert_eq!(s.local_endpoint, Some(ip(1, 60001)));
    assert_eq!(s.bind(Endpoint::Ip(ip(1, 8080)), &mut ports, 0), Ok(0));
    assert_eq!(ports.last, 60001);
    assert_eq!(s.listen_plan(true), Ok(None));
    assert_eq!(s.listen_plan(false), Ok(Some(ip(1, 8080))));
    assert_eq!(s.listen_result(Err(())), Err(SysError::EINVAL));
    assert!(!s.is_listening);
    assert_eq!(s.listen_result(Ok(())), Ok(0));
    assert!(s.is_listening);
    assert_eq!(s.listen_plan(false), Ok(None));
    assert_eq!(s.accept_endpoint(), Ok(ip(1, 8080)));
    let accepted = s.accept_swap(9);
    assert_eq!(accepted.handle, 4);
    assert!(!accepted.is_listening);
    assert_eq!(accepted.local_endpoint, Some(ip(1, 8080)));
    assert_eq!(s.handle, 9);
    assert!(s.is_listening);
}

#[test]
fn tcp_endpoints() {
    let mut s = TcpSocketState::new(4);
    assert_eq!(s.endpoint(ip(3, 0)), None);
    assert_eq!(s.endpoint(ip(3, 7)), Some(Endpoint::Ip(ip(3, 7))));
    s.local_endpoint = Some(ip(1, 1));
    assert_eq!(s.endpoint(ip(3, 7)), Some(Endpoint::Ip(ip(1, 1))));
    assert_eq!(s.remote_endpoint(&status(TcpState::Established, true, true)), Some(Endpoint::Ip(ip(2, 5000))));
    assert_eq!(s.remote_endpoint(&status(TcpState::Closed, true, true)), None);
}

#[test]
fn udp_socket() {
    let mut u = UdpSocketState::new(5);
    assert_eq!(u.read_step(true, Some((3, ip(9, 53)))), Some((Ok(3), Endpoint::Ip(ip(9, 53)))));
    assert_eq!(u.read_step(true, None), None);
    assert_eq!(u.read_step(false, None), Some((Err(SysError::ENOTCONN), UNSPECIFIED)));
    let mut ports = EphemeralPorts::new();
    assert_eq!(u.write_plan(None, 0, &mut ports, 5), Err(SysError::ENOTCONN));
    assert_eq!(ports.last, 0);
    assert_eq!(u.write_plan(Some(Endpoint::Ip(ip(9, 53))), 0, &mut ports, 5), Ok(UdpSend { to: ip(9, 53), bind_port: Some(49158) }));
    assert_eq!(u.connect(Endpoint::LinkLevel(LinkLevelEndpoint::new(0))), Err(SysError::EINVAL));
    assert_eq!(u.connect(Endpoint::Ip(ip(8, 123))), Ok(0));
    assert_eq!(u.write_plan(None, 1234, &mut ports, 5), Ok(UdpSend { to: ip(8, 123), bind_port: None }));
    assert_eq!(u.write_result(true, Ok(()), 12), Ok(12));
    assert_eq!(u.write_result(false, Ok(()), 12), Err(SysError::ENOBUFS));
    assert_eq!(u.write_result(true, Err(()), 12), Err(SysError::ENOBUFS));
    assert_eq!(u.poll(true, false), (true, false, false));
    assert_eq!(u.bind_target(Endpoint::Ip(ip(1, 9))), Ok(ip(1, 9)));
    assert_eq!(u.bind_result(Err(())), Err(SysError::EINVAL));
    assert_eq!(u.endpoint(ip(1, 0)), None);
    assert_eq!(u.remote_endpoint(), Some(Endpoint::Ip(ip(8, 123))));
}

fn arp_request(family: u16, dev: &[u8]) -> Vec<u8> {
    let mut r = vec![0u8; ARPREQ_LEN];
    r[0..2].copy_from_slice(&family.to_le_bytes());
    r[4..8].copy_from_slice(&[10, 0, 2, 2]);
    r[52..52 + dev.len()].copy_from_slice(dev);
    r
}

#[test]
fn udp_arp_ioctl() {
    let u = UdpSocketState::new(5);
    let names = vec![b"lo".to_vec(), b"eth0".to_vec(), b"eth0".to_vec()];
    assert_eq!(u.ioctl_plan(0x5421, &[], &names), IoctlAction::Done(Ok(0)));
    assert_eq!(u.ioctl_plan(SIOCGARP, &arp_request(1, b"eth0"), &names), IoctlAction::Done(Err(SysError::EINVAL)));
    assert_eq!(u.ioctl_plan(SIOCGARP, &arp_request(2, b"wlan0"), &names), IoctlAction::Done(Err(SysError::ENOENT)));
    assert_eq!(u.ioctl_plan(SIOCGARP, &arp_request(2, b"eth0"), &names), IoctlAction::LookupArp { iface: 1, addr: [10, 0, 2, 2] });
    let mut req = arp_request(2, b"eth0");
    assert_eq!(u.arp_answer(&mut req, None), Err(SysError::ENOENT));
    assert_eq!(req, arp_request(2, b"eth0"));
    assert_eq!(u.arp_answer(&mut req, Some([1, 2, 3, 4, 5, 6])), Ok(0));
    assert_eq!(&req[18..24], &[1, 2, 3, 4, 5, 6]);
    assert_eq!(&req[..18], &arp_request(2, b"eth0")[..18]);
    assert_eq!(&req[24..], &arp_request(2, b"eth0")[24..]);
}

#[test]
fn raw_and_packet_sockets() {
    let mut r = RawSocketState::new(6);
    let mut packet = vec![0u8; 20];
    packet[12..16].copy_from_slice(&[192, 168, 1, 7]);
    assert_eq!(r.read_result(&packet, 20), (Ok(20), Endpoint::Ip(IpEndpoint { addr: IpAddress::Ipv4(192, 168, 1, 7), port: 0 })));
    assert_eq!(r.write_result(Ok(()), 20), Ok(20));
    assert_eq!(r.write_result(Err(()), 20), Err(SysError::ENOBUFS));
    assert_eq!(r.setsockopt(IPPROTO_IP, IP_HDRINCL, &[1]), Ok(0));
    assert!(r.header_included);
    assert_eq!(r.setsockopt(IPPROTO_IP, IP_HDRINCL, &[]), Ok(0));
    assert!(r.header_included);
    assert_eq!(r.setsockopt(IPPROTO_IP, IP_HDRINCL, &[0]), Ok(0));
    assert!(!r.header_included);
    assert_eq!(r.setsockopt(1, IP_HDRINCL, &[1]), Ok(0));
    assert!(!r.header_included);
    let p = PacketSocketState::new();
    assert_eq!(p.write_target(Some(Endpoint::LinkLevel(LinkLevelEndpoint::new(2)))), Ok(2));
    assert_eq!(p.write_target(None), Err(SysError::ENOTCONN));
    assert_eq!(p.write_result(Some(60)), Ok(60));
    assert_eq!(p.write_result(None), Err(SysError::ENOBUFS));
}

#[test]
fn demo_servers() {
    assert!(!server_runs(0));
    assert!(server_runs(1));
    let first = server_step(&ServerView {
        udp_open: false,
        udp_client: None,
        http_open: false,
        http_can_send: false,
        sink_open: false,
        sink_can_recv: false,
    });
    assert_eq!(
        first,
        ServerStep { udp_bind: Some(6969), udp_reply: None, http_listen: Some(80), http_respond: false, sink_listen: Some(2222), sink_drain: false }
    );
    let busy = server_step(&ServerView {
        udp_open: true,
        udp_client: Some(ip(5, 1000)),
        http_open: true,
        http_can_send: true,
        sink_open: true,
        sink_can_recv: true,
    });
    assert_eq!(busy, ServerStep { udp_bind: None, udp_reply: Some(ip(5, 1000)), http_listen: None, http_respond: true, sink_listen: None, sink_drain: true });
    assert_eq!(greeting(), "hello\n");
    assert!(http_response().starts_with("HTTP/1.1 200 OK\r\n"));
    assert!(http_response().ends_with("\r\n\r\nHello, world!\r\n"));
}
