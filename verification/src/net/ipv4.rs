//! The IPv4 packets that a raw socket without its own header sends.

use vstd::prelude::*;

use crate::net::endpoint::{Endpoint, IpAddress};
use crate::syscall::SysError;

verus! {

/// The sum of the 16-bit big-endian words of `s` (of even length).
pub open spec fn word_sum(s: Seq<u8>) -> nat
    decreases s.len(),
{
    if s.len() < 2 {
        0
    } else {
        word_sum(s.subrange(2, s.len() as int)) + (s[0] as nat) * 256 + (s[1] as nat)
    }
}

/// The sum with its carries folded back in, as 16 bits.
pub open spec fn fold_carries(x: nat) -> nat
    decreases x,
{
    if x <= 0xffff {
        x
    } else {
        fold_carries(x % 65536 + x / 65536)
    }
}

/// The internet checksum of `s`: the complement of the folded sum.
pub open spec fn internet_checksum(s: Seq<u8>) -> u16 {
    (0xffff - fold_carries(word_sum(s))) as u16
}

/// The header of an IPv4 packet with `payload_len` bytes of payload: version
/// 4 with a 20-byte header, the total length, `protocol`, the addresses,
/// and zeros elsewhere (the checksum among them).
pub open spec fn ipv4_header_zero_sum(payload_len: nat, protocol: u8, src: Seq<u8>, dst: Seq<u8>) -> Seq<u8> {
    seq![0x45u8, 0, (((20 + payload_len) as u16) >> 8) as u8, ((20 + payload_len) as u16 & 0xff) as u8, 0, 0, 0, 0, 0, protocol, 0, 0]
        + src + dst
}

/// The whole packet: the header with its checksum filled in, then the
/// payload.
pub open spec fn ipv4_packet(data: Seq<u8>, protocol: u8, src: Seq<u8>, dst: Seq<u8>) -> Seq<u8> {
    let h = ipv4_header_zero_sum(data.len(), protocol, src, dst);
    let c = internet_checksum(h);
    h.update(10, (c >> 8) as u8).update(11, (c & 0xff) as u8) + data
}

/// The internet checksum of a 20-byte header.
fn header_checksum(h: &Vec<u8>) -> (c: u16)
    requires
        h@.len() == 20,
    ensures
        c == internet_checksum(h@),
{
    let mut sum: u32 = 0;
    let mut i: usize = 0;
    assert(h@.subrange(0, 20) =~= h@);
    while i < 20
        invariant
            i <= 20,
            i % 2 == 0,
            h@.len() == 20,
            sum <= i * 0x8000,
            sum + word_sum(h@.subrange(i as int, 20)) == word_sum(h@),
        decreases 20 - i,
    {
        proof {
            let rest = h@.subrange(i as int, 20);
            assert(rest.subrange(2, rest.len() as int) =~= h@.subrange(i + 2, 20));
        }
        sum = sum + (h[i] as u32) * 256 + h[i + 1] as u32;
        i = i + 2;
    }
    proof {
        assert(h@.subrange(20, 20).len() == 0);
    }
    assert((sum >> 16) <= 0xffff && (sum & 0xffff) <= 0xffff) by (bit_vector);
    let s1 = (sum >> 16) + (sum & 0xffff);
    assert((s1 >> 16) <= 0xffff && (s1 & 0xffff) <= 0xffff) by (bit_vector);
    let s2 = (s1 >> 16) + (s1 & 0xffff);
    proof {
        assert(sum <= 0xa0000);
        assert((sum >> 16) == sum / 65536 && (sum & 0xffff) == sum % 65536) by (bit_vector);
        assert((s1 >> 16) == s1 / 65536 && (s1 & 0xffff) == s1 % 65536) by (bit_vector);
        if sum > 0xffff {
            assert(fold_carries(sum as nat) == fold_carries((sum % 65536 + sum / 65536) as nat));
        }
        if s1 > 0xffff {
            assert(fold_carries(s1 as nat) == fold_carries((s1 % 65536 + s1 / 65536) as nat));
            assert(s2 <= 0xffff);
        }
        assert(fold_carries(s2 as nat) == s2);
    }
    (0xffff - s2) as u16
}

/// The packet that a raw socket sends for `data` from `src` to `dst`.
pub fn build_ipv4_packet(data: &[u8], protocol: u8, src: [u8; 4], dst: [u8; 4]) -> (p: Vec<u8>)
    requires
        data@.len() + 20 <= u16::MAX,
    ensures
        p@ == ipv4_packet(data@, protocol, src@, dst@),
{
    let total = (20 + data.len()) as u16;
    let mut h: Vec<u8> = Vec::new();
    h.push(0x45);
    h.push(0);
    h.push((total >> 8) as u8);
    h.push((total & 0xff) as u8);
    h.push(0);
    h.push(0);
    h.push(0);
    h.push(0);
    h.push(0);
    h.push(protocol);
    h.push(0);
    h.push(0);
    h.push(src[0]);
    h.push(src[1]);
    h.push(src[2]);
    h.push(src[3]);
    h.push(dst[0]);
    h.push(dst[1]);
    h.push(dst[2]);
    h.push(dst[3]);
    assert(h@ =~= ipv4_header_zero_sum(data@.len(), protocol, src@, dst@));
    let c = header_checksum(&h);
    h.set(10, (c >> 8) as u8);
    h.set(11, (c & 0xff) as u8);
    let mut i: usize = 0;
    let ghost head = h@;
    while i < data.len()
        invariant
            i <= data@.len(),
            h@ == head + data@.take(i as int),
        decreases data@.len() - i,
    {
        h.push(data[i]);
        i = i + 1;
        assert(h@ =~= head + data@.take(i as int));
    }
    assert(data@.take(data@.len() as int) =~= data@);
    h
}

/// What a raw socket's `write` sends.
#[derive(Debug, Clone, PartialEq, Eq)]
pub enum RawSend {
    /// The caller's bytes as they are: they carry their own header.
    AsIs,
    /// An IPv4 packet to this address, to be built around the bytes.
    Ipv4 { dst: [u8; 4] },
}

/// A raw socket's `write`: with its own header the bytes go as they are;
/// else there must be an IPv4 destination (`ENOTCONN` without one).
pub fn raw_send(header_included: bool, sendto: Option<Endpoint>) -> (r: Result<RawSend, SysError>)
    requires
        !header_included ==> (sendto matches Some(Endpoint::Ip(ip)) ==> ip.addr is Ipv4),
    ensures
        header_included ==> r == Ok::<RawSend, SysError>(RawSend::AsIs),
        !header_included ==> match sendto {
            Some(Endpoint::Ip(ip)) => match ip.addr {
                IpAddress::Ipv4(a, b, c, d) => r matches Ok(RawSend::Ipv4 { dst }) && dst@ == seq![a, b, c, d],
                _ => r == Err::<RawSend, SysError>(SysError::ENOTCONN),
            },
            _ => r == Err::<RawSend, SysError>(SysError::ENOTCONN),
        },
{
    if header_included {
        return Ok(RawSend::AsIs);
    }
    match sendto {
        Some(Endpoint::Ip(ip)) => match ip.addr {
            IpAddress::Ipv4(a, b, c, d) => {
                let dst = [a, b, c, d];
                assert(dst@ =~= seq![a, b, c, d]);
                Ok(RawSend::Ipv4 { dst })
            },
            _ => Err(SysError::ENOTCONN),
        },
        _ => Err(SysError::ENOTCONN),
    }
}

} // verus!
