//! Header parsers: each views a byte region as a fixed-format header
//! followed by a payload slice, without copying bytes.

use vstd::prelude::*;
use vstd::slice::slice_subrange;

verus! {

pub const ETHERNET_HEADER_LEN: usize = 14;
pub const IPV4_MIN_HEADER_LEN: usize = 20;
pub const IPV6_HEADER_LEN: usize = 40;
pub const TCP_MIN_HEADER_LEN: usize = 20;
pub const UDP_HEADER_LEN: usize = 8;

/// Big-endian 16-bit value of the two bytes at `i`.
pub open spec fn be16(s: Seq<u8>, i: int) -> int {
    s[i] as int * 256 + s[i + 1] as int
}

/// The slice `s[start..end]`, empty where `start` is past the end,
/// with `end` cut to the buffer.
pub open spec fn clamped(s: Seq<u8>, start: int, end: int) -> Seq<u8> {
    if s.len() <= start {
        Seq::empty()
    } else if end < s.len() {
        s.subrange(start, end)
    } else {
        s.subrange(start, s.len() as int)
    }
}

fn read_be16(s: &[u8], i: usize) -> (r: u16)
    requires
        i + 1 < s@.len(),
    ensures
        r as int == be16(s@, i as int),
{
    (s[i] as u16) * 256 + (s[i + 1] as u16)
}

fn read_array4(s: &[u8], i: usize) -> (r: [u8; 4])
    requires
        i + 4 <= s@.len(),
    ensures
        r@ == s@.subrange(i as int, i + 4),
{
    let r = [s[i], s[i + 1], s[i + 2], s[i + 3]];
    assert(r@ =~= s@.subrange(i as int, i + 4));
    r
}

fn read_array16(s: &[u8], i: usize) -> (r: [u8; 16])
    requires
        i + 16 <= s@.len(),
        i + 16 <= usize::MAX,
    ensures
        r@ == s@.subrange(i as int, i + 16),
{
    let mut r: [u8; 16] = [0u8; 16];
    let mut k: usize = 0;
    while k < 16
        invariant
            k <= 16,
            i + 16 <= s@.len(),
            i + 16 <= usize::MAX,
            r@.len() == 16,
            forall|j: int| 0 <= j < k ==> r@[j] == s@[i + j],
        decreases 16 - k,
    {
        r[k] = s[i + k];
        k = k + 1;
    }
    assert(r@ =~= s@.subrange(i as int, i + 16));
    r
}

fn clamped_slice<'a>(s: &'a [u8], start: usize, end: usize) -> (r: &'a [u8])
    requires
        start <= end,
    ensures
        r@ == clamped(s@, start as int, end as int),
{
    if s.len() <= start {
        slice_subrange(s, 0, 0)
    } else if end < s.len() {
        slice_subrange(s, start, end)
    } else {
        slice_subrange(s, start, s.len())
    }
}

/// An Ethernet II frame: two MAC addresses, the ethertype and the rest.
pub struct EthernetFrame<'a> {
    pub destination: &'a [u8],
    pub source: &'a [u8],
    pub ethertype: u16,
    pub payload: &'a [u8],
}

/// Parses an Ethernet header; `None` when fewer than 14 bytes are given.
pub fn parse_ethernet<'a>(frame: &'a [u8]) -> (r: Option<EthernetFrame<'a>>)
    ensures
        r is None <==> frame@.len() < ETHERNET_HEADER_LEN,
        r matches Some(e) ==> {
            &&& e.destination@ == frame@.subrange(0, 6)
            &&& e.source@ == frame@.subrange(6, 12)
            &&& e.ethertype as int == be16(frame@, 12)
            &&& e.payload@ == frame@.subrange(14, frame@.len() as int)
        },
{
    if frame.len() < ETHERNET_HEADER_LEN {
        return None;
    }
    Some(
        EthernetFrame {
            destination: slice_subrange(frame, 0, 6),
            source: slice_subrange(frame, 6, 12),
            ethertype: read_be16(frame, 12),
            payload: slice_subrange(frame, 14, frame.len()),
        },
    )
}

/// Declared IPv4 header length in bytes (the IHL field counts 32-bit words).
pub open spec fn ipv4_header_len(s: Seq<u8>) -> int {
    (s[0] % 16) as int * 4
}

/// End of the IPv4 payload as the total-length field declares it.
pub open spec fn ipv4_payload_end(s: Seq<u8>) -> int {
    if be16(s, 2) < ipv4_header_len(s) {
        ipv4_header_len(s)
    } else {
        be16(s, 2)
    }
}

/// A buffer holds a well-formed IPv4 header: at least 20 bytes, a declared
/// header length of at least 20 bytes, and no shorter than that length.
pub open spec fn ipv4_header_ok(s: Seq<u8>) -> bool {
    &&& s.len() >= IPV4_MIN_HEADER_LEN
    &&& ipv4_header_len(s) >= IPV4_MIN_HEADER_LEN
    &&& s.len() >= ipv4_header_len(s)
}

/// An IPv4 packet: addresses, the next-level protocol and the payload.
pub struct Ipv4Packet<'a> {
    pub source: [u8; 4],
    pub destination: [u8; 4],
    pub protocol: u8,
    pub payload: &'a [u8],
}

/// Parses an IPv4 header. The payload starts right after the declared header
/// length and ends where the total-length field says, cut to the buffer.
pub fn parse_ipv4<'a>(buf: &'a [u8]) -> (r: Option<Ipv4Packet<'a>>)
    ensures
        r is Some <==> ipv4_header_ok(buf@),
        r matches Some(p) ==> {
            &&& p.source@ == buf@.subrange(12, 16)
            &&& p.destination@ == buf@.subrange(16, 20)
            &&& p.protocol == buf@[9]
            &&& p.payload@ == clamped(buf@, ipv4_header_len(buf@), ipv4_payload_end(buf@))
        },
{
    if buf.len() < IPV4_MIN_HEADER_LEN {
        return None;
    }
    let header_len: usize = ((buf[0] % 16) as usize) * 4;
    if header_len < IPV4_MIN_HEADER_LEN || buf.len() < header_len {
        return None;
    }
    let total: usize = read_be16(buf, 2) as usize;
    let end: usize = if total < header_len { header_len } else { total };
    Some(
        Ipv4Packet {
            source: read_array4(buf, 12),
            destination: read_array4(buf, 16),
            protocol: buf[9],
            payload: clamped_slice(buf, header_len, end),
        },
    )
}

/// An IPv6 packet: addresses, the next-header field and the payload.
pub struct Ipv6Packet<'a> {
    pub source: [u8; 16],
    pub destination: [u8; 16],
    pub next_header: u8,
    pub payload: &'a [u8],
}

/// Parses a fixed 40-byte IPv6 header. The payload starts at byte 40 and
/// holds as many bytes as the payload-length field says, cut to the buffer.
pub fn parse_ipv6<'a>(buf: &'a [u8]) -> (r: Option<Ipv6Packet<'a>>)
    ensures
        r is None <==> buf@.len() < IPV6_HEADER_LEN,
        r matches Some(p) ==> {
            &&& p.source@ == buf@.subrange(8, 24)
            &&& p.destination@ == buf@.subrange(24, 40)
            &&& p.next_header == buf@[6]
            &&& p.payload@ == clamped(buf@, 40, 40 + be16(buf@, 4))
        },
{
    if buf.len() < IPV6_HEADER_LEN {
        return None;
    }
    let payload_len: usize = read_be16(buf, 4) as usize;
    Some(
        Ipv6Packet {
            source: read_array16(buf, 8),
            destination: read_array16(buf, 24),
            next_header: buf[6],
            payload: clamped_slice(buf, 40, 40 + payload_len),
        },
    )
}

/// TCP header length in bytes: the data-offset field counts 32-bit words,
/// and the header is never shorter than its 20 fixed bytes.
pub open spec fn tcp_header_len(s: Seq<u8>) -> int {
    let words = (s[12] / 16) as int;
    if words > 5 {
        words * 4
    } else {
        TCP_MIN_HEADER_LEN as int
    }
}

/// A TCP segment: ports and the payload after the header and its options.
pub struct TcpSegment<'a> {
    pub source: u16,
    pub destination: u16,
    pub payload: &'a [u8],
}

/// Parses a TCP header of at least 20 bytes; the payload starts after the
/// length that the data-offset field declares.
pub fn parse_tcp<'a>(buf: &'a [u8]) -> (r: Option<TcpSegment<'a>>)
    ensures
        r is None <==> buf@.len() < TCP_MIN_HEADER_LEN,
        r matches Some(t) ==> {
            &&& t.source as int == be16(buf@, 0)
            &&& t.destination as int == be16(buf@, 2)
            &&& t.payload@ == clamped(buf@, tcp_header_len(buf@), buf@.len() as int)
        },
{
    if buf.len() < TCP_MIN_HEADER_LEN {
        return None;
    }
    let words: usize = (buf[12] / 16) as usize;
    let header_len: usize = if words > 5 { words * 4 } else { TCP_MIN_HEADER_LEN };
    let end: usize = if header_len < buf.len() { buf.len() } else { header_len };
    proof {
        assert(clamped(buf@, header_len as int, end as int) == clamped(
            buf@,
            header_len as int,
            buf@.len() as int,
        ));
    }
    Some(
        TcpSegment {
            source: read_be16(buf, 0),
            destination: read_be16(buf, 2),
            payload: clamped_slice(buf, header_len, end),
        },
    )
}

/// A UDP datagram: ports and the payload after the 8-byte header.
pub struct UdpDatagram<'a> {
    pub source: u16,
    pub destination: u16,
    pub payload: &'a [u8],
}

/// Parses a UDP header; `None` when fewer than 8 bytes are given.
pub fn parse_udp<'a>(buf: &'a [u8]) -> (r: Option<UdpDatagram<'a>>)
    ensures
        r is None <==> buf@.len() < UDP_HEADER_LEN,
        r matches Some(u) ==> {
            &&& u.source as int == be16(buf@, 0)
            &&& u.destination as int == be16(buf@, 2)
            &&& u.payload@ == buf@.subrange(8, buf@.len() as int)
        },
{
    if buf.len() < UDP_HEADER_LEN {
        return None;
    }
    Some(
        UdpDatagram {
            source: read_be16(buf, 0),
            destination: read_be16(buf, 2),
            payload: slice_subrange(buf, 8, buf.len()),
        },
    )
}

} // verus!
