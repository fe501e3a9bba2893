use rcore::net::endpoint::{Endpoint, IpAddress, IpEndpoint, LinkLevelEndpoint, NetlinkEndpoint};
use rcore::net::ipv4::{build_ipv4_packet, raw_send, RawSend};
use rcore::net::netlink::{read_header, IfaceAddr, IfaceInfo, NetlinkSocketState, NLMSG_DONE, RTM_GETADDR, RTM_GETLINK, RTM_NEWADDR, RTM_NEWLINK};
use rcore::net::sockaddr::{endpoint_to_sockaddr, sockaddr_len, sockaddr_to_endpoint, sockaddr_write, SOCKADDR_LEN};
use rcore::syscall::SysError;

fn padded(bytes: &[u8]) -> Vec<u8> {
    let mut v = bytes.to_vec();
    v.resize(SOCKADDR_LEN, 0);
    v
}

#[test]
fn sockaddr_lengths() {
    assert_eq!(sockaddr_len(2), Ok(16));
    assert_eq!(sockaddr_len(17), Ok(20));
    assert_eq!(sockaddr_len(16), Ok(12));
    assert_eq!(sockaddr_len(1), Err(SysError::EINVAL));
    assert_eq!(sockaddr_len(0), Err(SysError::EINVAL));
}

#[test]
fn ipv4_sockaddr_round_trip() {
    let ep = Endpoint::Ip(IpEndpoint { addr: IpAddress::Ipv4(10, 0, 2, 15), port: 8080 });
    let bytes = endpoint_to_sockaddr(ep);
    assert_eq!(bytes, vec![2, 0, 0x1f, 0x90, 10, 0, 2, 15, 0, 0, 0, 0, 0, 0, 0, 0]);
    assert_eq!(sockaddr_to_endpoint(&padded(&bytes), 16), Ok(ep));
    assert_eq!(sockaddr_to_endpoint(&padded(&bytes), 15), Err(SysError::EINVAL));
    assert_eq!(sockaddr_to_endpoint(&padded(&bytes), 1), Err(SysError::EINVAL));
}

#[test]
fn link_and_netlink_sockaddrs() {
    let ll = Endpoint::LinkLevel(LinkLevelEndpoint::new(3));
    let bytes = endpoint_to_sockaddr(ll);
    assert_eq!(bytes.len(), 20);
    assert_eq!(&bytes[..8], &[17, 0, 0, 0, 3, 0, 0, 0]);
    assert_eq!(sockaddr_to_endpoint(&padded(&bytes), 20), Ok(ll));
    let nl = Endpoint::Netlink(NetlinkEndpoint::new(0x1234, 5));
    let bytes = endpoint_to_sockaddr(nl);
    assert_eq!(bytes, vec![16, 0, 0, 0, 0x34, 0x12, 0, 0, 5, 0, 0, 0]);
    assert_eq!(sockaddr_to_endpoint(&padded(&bytes), 12), Ok(nl));
    assert_eq!(sockaddr_to_endpoint(&padded(&[1, 0]), 110), Err(SysError::EINVAL));
}

#[test]
fn sockaddr_write_truncates() {
    let ep = Endpoint::Ip(IpEndpoint { addr: IpAddress::Ipv4(127, 0, 0, 1), port: 80 });
    let (bytes, len) = sockaddr_write(ep, 4).unwrap();
    assert_eq!(bytes, vec![2, 0, 0, 80]);
    assert_eq!(len, 16);
    let (bytes, len) = sockaddr_write(ep, 64).unwrap();
    assert_eq!(bytes.len(), 16);
    assert_eq!(len, 16);
    let unspecified = Endpoint::Ip(IpEndpoint { addr: IpAddress::Unspecified, port: 0 });
    assert_eq!(sockaddr_write(unspecified, 16), Err(SysError::EINVAL));
}

#[test]
fn ipv4_packet_has_checksum() {
    let p = build_ipv4_packet(&[1, 2, 3, 4], 1, [10, 0, 0, 1], [10, 0, 0, 2]);
    assert_eq!(
        p,
        vec![0x45, 0, 0, 24, 0, 0, 0, 0, 0, 1, 0xa6, 0xe3, 10, 0, 0, 1, 10, 0, 0, 2, 1, 2, 3, 4]
    );
    let mut sum: u32 = 0;
    for i in 0..10 {
        sum += (p[2 * i] as u32) << 8 | p[2 * i + 1] as u32;
    }
    while sum > 0xffff {
        sum = (sum & 0xffff) + (sum >> 16);
    }
    assert_eq!(sum, 0xffff);
}

#[test]
fn raw_socket_sends() {
    assert_eq!(raw_send(true, None), Ok(RawSend::AsIs));
    let to = Endpoint::Ip(IpEndpoint { addr: IpAddress::Ipv4(1, 2, 3, 4), port: 0 });
    assert_eq!(raw_send(false, Some(to)), Ok(RawSend::Ipv4 { dst: [1, 2, 3, 4] }));
    assert_eq!(raw_send(false, None), Err(SysError::ENOTCONN));
    assert_eq!(raw_send(false, Some(Endpoint::LinkLevel(LinkLevelEndpoint::new(1)))), Err(SysError::ENOTCONN));
}

fn request(ty: u16, seq: u32) -> Vec<u8> {
    let mut v = Vec::new();
    v.extend_from_slice(&16u32.to_le_bytes());
    v.extend_from_slice(&ty.to_le_bytes());
    v.extend_from_slice(&0x301u16.to_le_bytes());
    v.extend_from_slice(&seq.to_le_bytes());
    v.extend_from_slice(&77u32.to_le_bytes());
    v
}

fn ifaces() -> Vec<IfaceInfo> {
    vec![IfaceInfo {
        mac: vec![0x52, 0x54, 0, 0x12, 0x34, 0x56],
        name: b"eth0".to_vec(),
        addrs: vec![IfaceAddr { prefix_len: 24, address: vec![10, 0, 2, 15] }],
    }]
}

#[test]
fn netlink_getlink_answers_then_done() {
    let mut s = NetlinkSocketState::new();
    let req = request(RTM_GETLINK, 9);
    assert_eq!(s.write(&req, &ifaces()), Ok(16));
    let mut buf = vec![0u8; 256];
    let (r, peer) = s.read(&mut buf);
    assert_eq!(r, Ok(52));
    assert_eq!(peer, Endpoint::Netlink(NetlinkEndpoint::new(0, 0)));
    let h = read_header(&buf);
    assert_eq!(h.nlmsg_len, 52);
    assert_eq!(h.nlmsg_type, RTM_NEWLINK);
    assert_eq!(h.nlmsg_seq, 9);
    assert_eq!(h.nlmsg_pid, 77);
    let (r, _) = s.read(&mut buf);
    assert_eq!(r, Ok(16));
    let h = read_header(&buf);
    assert_eq!(h.nlmsg_type, NLMSG_DONE);
    assert_eq!(h.nlmsg_len, 16);
    let (r, _) = s.read(&mut buf);
    assert_eq!(r, Ok(0));
}

#[test]
fn netlink_getaddr_and_bad_requests() {
    let mut s = NetlinkSocketState::new();
    assert_eq!(s.write(&[0u8; 8], &ifaces()), Err(SysError::EINVAL));
    let mut long = request(RTM_GETADDR, 1);
    long[0] = 200;
    assert_eq!(s.write(&long, &ifaces()), Err(SysError::EINVAL));
    assert_eq!(s.write(&request(RTM_GETADDR, 1), &ifaces()), Ok(16));
    let mut buf = vec![0u8; 8];
    let (r, _) = s.read(&mut buf);
    assert_eq!(r, Ok(8));
    assert_eq!(&buf[..4], &32u32.to_le_bytes());
    assert_eq!(&buf[4..6], &RTM_NEWADDR.to_le_bytes());
    let mut buf = vec![0u8; 64];
    let (r, _) = s.read(&mut buf);
    assert_eq!(r, Ok(16));
    assert_eq!(read_header(&buf).nlmsg_type, NLMSG_DONE);
}
