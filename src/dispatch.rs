//! Protocol dispatch: Ethernet to IPv4/IPv6 by ethertype, and the network
//! payload to TCP/UDP by protocol id, producing the text for one frame.

use vstd::prelude::*;
use crate::endpoints::GetEndPoints;
use crate::headers::{
    be16, clamped, ipv4_header_len, ipv4_header_ok, ipv4_payload_end, parse_ethernet, parse_ipv4,
    parse_ipv6, parse_tcp, parse_udp, tcp_header_len, EthernetFrame,
};
use crate::render::{packet_block, render_packet_info};
use crate::text::{colon_hex, decimal, dotted_quad};

verus! {

pub const ETHERTYPE_IPV4: u16 = 0x0800;
pub const ETHERTYPE_IPV6: u16 = 0x86DD;
pub const PROTOCOL_TCP: u8 = 6;
pub const PROTOCOL_UDP: u8 = 17;

pub open spec fn not_ip_line() -> Seq<char> {
    "Not an IPv4 or IPv6 packet\n"@
}

pub open spec fn not_transport_line() -> Seq<char> {
    "Not a TCP or UDP packet\n"@
}

pub open spec fn short_ipv4_line() -> Seq<char> {
    "IPv4 header too short\n"@
}

pub open spec fn short_ipv6_line() -> Seq<char> {
    "IPv6 header too short\n"@
}

pub open spec fn short_tcp_line() -> Seq<char> {
    "TCP header too short\n"@
}

pub open spec fn short_udp_line() -> Seq<char> {
    "UDP header too short\n"@
}

/// Output for a TCP segment `seg` carried between the network-layer
/// addresses `src3` and `dst3`.
pub open spec fn tcp_output(src3: Seq<char>, dst3: Seq<char>, seg: Seq<u8>) -> Seq<char> {
    if seg.len() < 20 {
        short_tcp_line()
    } else {
        packet_block(
            "TCP"@,
            src3,
            decimal(be16(seg, 0) as nat),
            dst3,
            decimal(be16(seg, 2) as nat),
            clamped(seg, tcp_header_len(seg), seg.len() as int),
        )
    }
}

/// Output for a UDP datagram `seg` carried between `src3` and `dst3`.
pub open spec fn udp_output(src3: Seq<char>, dst3: Seq<char>, seg: Seq<u8>) -> Seq<char> {
    if seg.len() < 8 {
        short_udp_line()
    } else {
        packet_block(
            "UDP"@,
            src3,
            decimal(be16(seg, 0) as nat),
            dst3,
            decimal(be16(seg, 2) as nat),
            seg.subrange(8, seg.len() as int),
        )
    }
}

/// Output for a network-layer payload whose protocol id is `proto`.
pub open spec fn transport_output(
    proto: u8,
    src3: Seq<char>,
    dst3: Seq<char>,
    seg: Seq<u8>,
) -> Seq<char> {
    if proto == PROTOCOL_TCP {
        tcp_output(src3, dst3, seg)
    } else if proto == PROTOCOL_UDP {
        udp_output(src3, dst3, seg)
    } else {
        not_transport_line()
    }
}

/// Output for an IPv4 packet.
pub open spec fn ipv4_output(b: Seq<u8>) -> Seq<char> {
    if !ipv4_header_ok(b) {
        short_ipv4_line()
    } else {
        transport_output(
            b[9],
            dotted_quad(b.subrange(12, 16)),
            dotted_quad(b.subrange(16, 20)),
            clamped(b, ipv4_header_len(b), ipv4_payload_end(b)),
        )
    }
}

/// Output for an IPv6 packet.
pub open spec fn ipv6_output(b: Seq<u8>) -> Seq<char> {
    if b.len() < 40 {
        short_ipv6_line()
    } else {
        transport_output(
            b[6],
            colon_hex(b.subrange(8, 24)),
            colon_hex(b.subrange(24, 40)),
            clamped(b, 40, 40 + be16(b, 4)),
        )
    }
}

/// Output for one raw frame: nothing when it is too short to be Ethernet,
/// else what its network layer gives, or a line for an unknown ethertype.
pub open spec fn frame_output(f: Seq<u8>) -> Seq<char> {
    if f.len() < 14 {
        Seq::empty()
    } else if be16(f, 12) == ETHERTYPE_IPV4 as int {
        ipv4_output(f.subrange(14, f.len() as int))
    } else if be16(f, 12) == ETHERTYPE_IPV6 as int {
        ipv6_output(f.subrange(14, f.len() as int))
    } else {
        not_ip_line()
    }
}

fn line_of(s: &str) -> (r: String)
    ensures
        r@ == s@,
{
    let mut r = String::new();
    r.append(s);
    assert(r@ =~= s@);
    r
}

/// Decodes the payload of `packet` as TCP and renders it.
pub fn tcp_handler<L3: GetEndPoints>(packet: &L3) -> (r: String)
    ensures
        r@ == tcp_output(packet.source_text(), packet.destination_text(), packet.payload_bytes()),
{
    match parse_tcp(packet.get_payload()) {
        Some(tcp) => render_packet_info(packet, &tcp, "TCP"),
        None => line_of("TCP header too short\n"),
    }
}

/// Decodes the payload of `packet` as UDP and renders it.
pub fn udp_handler<L3: GetEndPoints>(packet: &L3) -> (r: String)
    ensures
        r@ == udp_output(packet.source_text(), packet.destination_text(), packet.payload_bytes()),
{
    match parse_udp(packet.get_payload()) {
        Some(udp) => render_packet_info(packet, &udp, "UDP"),
        None => line_of("UDP header too short\n"),
    }
}

fn transport_handler<L3: GetEndPoints>(proto: u8, packet: &L3) -> (r: String)
    ensures
        r@ == transport_output(
            proto,
            packet.source_text(),
            packet.destination_text(),
            packet.payload_bytes(),
        ),
{
    if proto == PROTOCOL_TCP {
        tcp_handler(packet)
    } else if proto == PROTOCOL_UDP {
        udp_handler(packet)
    } else {
        line_of("Not a TCP or UDP packet\n")
    }
}

/// Decodes the payload of an Ethernet frame as IPv4 and what it carries.
pub fn ipv4_handler(frame: &EthernetFrame) -> (r: String)
    ensures
        r@ == ipv4_output(frame.payload@),
{
    match parse_ipv4(frame.payload) {
        Some(packet) => transport_handler(packet.protocol, &packet),
        None => line_of("IPv4 header too short\n"),
    }
}

/// Decodes the payload of an Ethernet frame as IPv6 and what it carries.
pub fn ipv6_handler(frame: &EthernetFrame) -> (r: String)
    ensures
        r@ == ipv6_output(frame.payload@),
{
    match parse_ipv6(frame.payload) {
        Some(packet) => transport_handler(packet.next_header, &packet),
        None => line_of("IPv6 header too short\n"),
    }
}

/// Decodes one raw frame and returns the text to write for it.
pub fn process_frame(frame: &[u8]) -> (r: String)
    ensures
        r@ == frame_output(frame@),
{
    match parse_ethernet(frame) {
        None => String::new(),
        Some(eth) => {
            if eth.ethertype == ETHERTYPE_IPV4 {
                ipv4_handler(&eth)
            } else if eth.ethertype == ETHERTYPE_IPV6 {
                ipv6_handler(&eth)
            } else {
                line_of("Not an IPv4 or IPv6 packet\n")
            }
        },
    }
}

} // verus!
