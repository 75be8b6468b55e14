//! Rendering of one decoded packet: a summary line, a dump of the
//! transport payload and a separator.

use vstd::prelude::*;
use crate::endpoints::GetEndPoints;
use crate::text::{hex_byte, push_char, push_hex_byte};

verus! {

/// A byte that is shown as itself: printable ASCII other than whitespace.
pub open spec fn shown_literally(b: u8) -> bool {
    0x21 <= b <= 0x7e
}

/// Dump text of one byte: the character itself, or two upper-case hex digits.
pub open spec fn dump_byte(b: u8) -> Seq<char> {
    if shown_literally(b) {
        seq![b as char]
    } else {
        hex_byte(b)
    }
}

/// Dump text of a byte sequence: each byte's text, with no separators.
pub open spec fn dump(p: Seq<u8>) -> Seq<char>
    decreases p.len(),
{
    if p.len() == 0 {
        Seq::empty()
    } else {
        dump(p.drop_last()) + dump_byte(p.last())
    }
}

/// The summary line, without its line break.
pub open spec fn summary_line(
    proto: Seq<char>,
    src3: Seq<char>,
    src4: Seq<char>,
    dst3: Seq<char>,
    dst4: Seq<char>,
) -> Seq<char> {
    "Captured a "@ + proto + " packet from "@ + src3 + seq![':'] + src4 + " to "@ + dst3 + seq![
        ':',
    ] + dst4
}

/// The line that closes each packet block.
pub open spec fn separator() -> Seq<char> {
    "\n================================\n\n"@
}

/// The whole text block of one packet.
pub open spec fn packet_block(
    proto: Seq<char>,
    src3: Seq<char>,
    src4: Seq<char>,
    dst3: Seq<char>,
    dst4: Seq<char>,
    payload: Seq<u8>,
) -> Seq<char> {
    summary_line(proto, src3, src4, dst3, dst4) + seq!['\n'] + dump(payload) + separator()
}

/// Appends the dump of `payload`.
pub fn push_dump(s: &mut String, payload: &[u8])
    ensures
        final(s)@ == old(s)@ + dump(payload@),
{
    let ghost start = s@;
    let mut i: usize = 0;
    while i < payload.len()
        invariant
            i <= payload@.len(),
            s@ == start + dump(payload@.subrange(0, i as int)),
        decreases payload@.len() - i,
    {
        let b = payload[i];
        if 0x21 <= b && b <= 0x7e {
            push_char(s, b as char);
        } else {
            push_hex_byte(s, b);
        }
        proof {
            let next = payload@.subrange(0, i + 1);
            assert(next.drop_last() =~= payload@.subrange(0, i as int));
            assert(next.last() == b);
        }
        i = i + 1;
        assert(s@ =~= start + dump(payload@.subrange(0, i as int)));
    }
    assert(payload@.subrange(0, i as int) =~= payload@);
}

/// Dump text of a byte sequence.
pub fn dump_payload(payload: &[u8]) -> (r: String)
    ensures
        r@ == dump(payload@),
{
    let mut s = String::new();
    push_dump(&mut s, payload);
    assert(s@ =~= dump(payload@));
    s
}

/// Renders one packet from its network-layer and transport-layer views.
pub fn render_packet_info<L3: GetEndPoints, L4: GetEndPoints>(
    layer3: &L3,
    layer4: &L4,
    proto: &str,
) -> (r: String)
    ensures
        r@ == packet_block(
            proto@,
            layer3.source_text(),
            layer4.source_text(),
            layer3.destination_text(),
            layer4.destination_text(),
            layer4.payload_bytes(),
        ),
{
    let mut s = String::new();
    s.append("Captured a ");
    s.append(proto);
    s.append(" packet from ");
    s.append(layer3.get_source().as_str());
    push_char(&mut s, ':');
    s.append(layer4.get_source().as_str());
    s.append(" to ");
    s.append(layer3.get_destination().as_str());
    push_char(&mut s, ':');
    s.append(layer4.get_destination().as_str());
    push_char(&mut s, '\n');
    push_dump(&mut s, layer4.get_payload());
    s.append("\n================================\n\n");
    assert(s@ =~= packet_block(
        proto@,
        layer3.source_text(),
        layer4.source_text(),
        layer3.destination_text(),
        layer4.destination_text(),
        layer4.payload_bytes(),
    ));
    s
}

} // verus!
