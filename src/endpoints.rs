//! The endpoint capability: one protocol-agnostic view of source,
//! destination and payload, with one adapter per header type.

use vstd::prelude::*;
use vstd::slice::slice_subrange;
use crate::headers::{Ipv4Packet, Ipv6Packet, TcpSegment, UdpDatagram};
use crate::text::{colon_hex, decimal, dotted_quad, ipv4_text, ipv6_text, push_decimal};

verus! {

/// Source, destination and payload of one protocol layer.
pub trait GetEndPoints {
    /// Text of the source address or port.
    spec fn source_text(&self) -> Seq<char>;

    /// Text of the destination address or port.
    spec fn destination_text(&self) -> Seq<char>;

    /// Bytes carried by this layer.
    spec fn payload_bytes(&self) -> Seq<u8>;

    fn get_source(&self) -> (r: String)
        ensures
            r@ == self.source_text(),
    ;

    fn get_destination(&self) -> (r: String)
        ensures
            r@ == self.destination_text(),
    ;

    fn get_payload(&self) -> (r: &[u8])
        ensures
            r@ == self.payload_bytes(),
    ;
}

fn port_text(port: u16) -> (r: String)
    ensures
        r@ == decimal(port as nat),
{
    let mut s = String::new();
    push_decimal(&mut s, port as u32);
    assert(s@ =~= decimal(port as nat));
    s
}

impl<'a> GetEndPoints for Ipv4Packet<'a> {
    open spec fn source_text(&self) -> Seq<char> {
        dotted_quad(self.source@)
    }

    open spec fn destination_text(&self) -> Seq<char> {
        dotted_quad(self.destination@)
    }

    open spec fn payload_bytes(&self) -> Seq<u8> {
        self.payload@
    }

    fn get_source(&self) -> (r: String) {
        ipv4_text(&self.source)
    }

    fn get_destination(&self) -> (r: String) {
        ipv4_text(&self.destination)
    }

    fn get_payload(&self) -> (r: &[u8]) {
        slice_subrange(self.payload, 0, self.payload.len())
    }
}

impl<'a> GetEndPoints for Ipv6Packet<'a> {
    open spec fn source_text(&self) -> Seq<char> {
        colon_hex(self.source@)
    }

    open spec fn destination_text(&self) -> Seq<char> {
        colon_hex(self.destination@)
    }

    open spec fn payload_bytes(&self) -> Seq<u8> {
        self.payload@
    }

    fn get_source(&self) -> (r: String) {
        ipv6_text(&self.source)
    }

    fn get_destination(&self) -> (r: String) {
        ipv6_text(&self.destination)
    }

    fn get_payload(&self) -> (r: &[u8]) {
        slice_subrange(self.payload, 0, self.payload.len())
    }
}

impl<'a> GetEndPoints for TcpSegment<'a> {
    open spec fn source_text(&self) -> Seq<char> {
        decimal(self.source as nat)
    }

    open spec fn destination_text(&self) -> Seq<char> {
        decimal(self.destination as nat)
    }

    open spec fn payload_bytes(&self) -> Seq<u8> {
        self.payload@
    }

    fn get_source(&self) -> (r: String) {
        port_text(self.source)
    }

    fn get_destination(&self) -> (r: String) {
        port_text(self.destination)
    }

    fn get_payload(&self) -> (r: &[u8]) {
        slice_subrange(self.payload, 0, self.payload.len())
    }
}

impl<'a> GetEndPoints for UdpDatagram<'a> {
    open spec fn source_text(&self) -> Seq<char> {
        decimal(self.source as nat)
    }

    open spec fn destination_text(&self) -> Seq<char> {
        decimal(self.destination as nat)
    }

    open spec fn payload_bytes(&self) -> Seq<u8> {
        self.payload@
    }

    fn get_source(&self) -> (r: String) {
        port_text(self.source)
    }

    fn get_destination(&self) -> (r: String) {
        port_text(self.destination)
    }

    fn get_payload(&self) -> (r: &[u8]) {
        slice_subrange(self.payload, 0, self.payload.len())
    }
}

} // verus!
