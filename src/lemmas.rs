//! Facts about the text produced for a frame, stated over `frame_output`,
//! which `process_frame` returns exactly.

use vstd::prelude::*;
use crate::dispatch::{frame_output, not_ip_line, short_udp_line};
use crate::headers::{be16, clamped, ipv4_header_len, ipv4_header_ok, ipv4_payload_end, tcp_header_len};
use crate::render::{packet_block, summary_line};
use crate::text::{decimal, dotted_quad};

verus! {

/// The IPv4 packet carried by an Ethernet frame.
pub open spec fn ip_part(f: Seq<u8>) -> Seq<u8> {
    f.subrange(14, f.len() as int)
}

/// The transport region of the IPv4 packet carried by an Ethernet frame.
pub open spec fn transport_part(f: Seq<u8>) -> Seq<u8> {
    let b = ip_part(f);
    clamped(b, ipv4_header_len(b), ipv4_payload_end(b))
}

/// A frame too short for an Ethernet header produces no output at all.
pub proof fn short_frame_produces_nothing(f: Seq<u8>)
    requires
        f.len() < 14,
    ensures
        frame_output(f) == Seq::<char>::empty(),
{
}

/// The output of a frame depends on its bytes alone: the same frame
/// processed twice gives the same text.
pub proof fn output_depends_on_bytes_alone(f: Seq<u8>, g: Seq<u8>)
    requires
        f == g,
    ensures
        frame_output(f) == frame_output(g),
{
}

/// An IPv4 frame carrying a TCP segment renders one packet block whose
/// addresses are the dotted quads of the IPv4 address fields and whose
/// ports are those of the TCP header.
pub proof fn ipv4_tcp_frame_block(f: Seq<u8>)
    requires
        f.len() >= 14,
        be16(f, 12) == 0x0800,
        ipv4_header_ok(ip_part(f)),
        ip_part(f)[9] == 6,
        transport_part(f).len() >= 20,
    ensures
        frame_output(f) == packet_block(
            "TCP"@,
            dotted_quad(f.subrange(26, 30)),
            decimal(be16(transport_part(f), 0) as nat),
            dotted_quad(f.subrange(30, 34)),
            decimal(be16(transport_part(f), 2) as nat),
            clamped(
                transport_part(f),
                tcp_header_len(transport_part(f)),
                transport_part(f).len() as int,
            ),
        ),
        frame_output(f).subrange(0, summary_line(
            "TCP"@,
            dotted_quad(f.subrange(26, 30)),
            decimal(be16(transport_part(f), 0) as nat),
            dotted_quad(f.subrange(30, 34)),
            decimal(be16(transport_part(f), 2) as nat),
        ).len() as int) == summary_line(
            "TCP"@,
            dotted_quad(f.subrange(26, 30)),
            decimal(be16(transport_part(f), 0) as nat),
            dotted_quad(f.subrange(30, 34)),
            decimal(be16(transport_part(f), 2) as nat),
        ),
{
    let b = ip_part(f);
    assert(b.subrange(12, 16) =~= f.subrange(26, 30));
    assert(b.subrange(16, 20) =~= f.subrange(30, 34));
    let line = summary_line(
        "TCP"@,
        dotted_quad(f.subrange(26, 30)),
        decimal(be16(transport_part(f), 0) as nat),
        dotted_quad(f.subrange(30, 34)),
        decimal(be16(transport_part(f), 2) as nat),
    );
    assert(frame_output(f).subrange(0, line.len() as int) =~= line);
}

/// An IPv4 frame carrying a UDP datagram renders one packet block whose
/// addresses are the dotted quads of the IPv4 address fields.
pub proof fn ipv4_udp_frame_block(f: Seq<u8>)
    requires
        f.len() >= 14,
        be16(f, 12) == 0x0800,
        ipv4_header_ok(ip_part(f)),
        ip_part(f)[9] == 17,
        transport_part(f).len() >= 8,
    ensures
        frame_output(f) == packet_block(
            "UDP"@,
            dotted_quad(f.subrange(26, 30)),
            decimal(be16(transport_part(f), 0) as nat),
            dotted_quad(f.subrange(30, 34)),
            decimal(be16(transport_part(f), 2) as nat),
            transport_part(f).subrange(8, transport_part(f).len() as int),
        ),
{
    let b = ip_part(f);
    assert(b.subrange(12, 16) =~= f.subrange(26, 30));
    assert(b.subrange(16, 20) =~= f.subrange(30, 34));
}

/// An ARP frame (ethertype 0x0806) produces exactly the one diagnostic line.
pub proof fn arp_frame_gives_one_line(f: Seq<u8>)
    requires
        f.len() >= 14,
        be16(f, 12) == 0x0806,
    ensures
        frame_output(f) == not_ip_line(),
        frame_output(f).last() == '\n',
        forall|i: int| 0 <= i < frame_output(f).len() - 1 ==> frame_output(f)[i] != '\n',
{
    reveal_strlit("Not an IPv4 or IPv6 packet\n");
}

/// An IPv4 frame whose UDP region is shorter than 8 bytes produces only the
/// diagnostic line, and no packet block.
pub proof fn short_udp_gives_no_block(f: Seq<u8>)
    requires
        f.len() >= 14,
        be16(f, 12) == 0x0800,
        ipv4_header_ok(ip_part(f)),
        ip_part(f)[9] == 17,
        transport_part(f).len() < 8,
    ensures
        frame_output(f) == short_udp_line(),
{
}

} // verus!
