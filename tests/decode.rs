use packet_sniffer::dispatch::process_frame;
use packet_sniffer::endpoints::GetEndPoints;
use packet_sniffer::headers::{parse_ethernet, parse_ipv4, parse_ipv6, parse_tcp, parse_udp};
use packet_sniffer::render::{dump_payload, render_packet_info};
use packet_sniffer::text::{ipv4_text, ipv6_text};

const SEP: &str = "\n================================\n\n";

fn ethernet(ethertype: u16, payload: &[u8]) -> Vec<u8> {
    let mut f = vec![0xde, 0xad, 0xbe, 0xef, 0x00, 0x01, 0x02, 0x03, 0x04, 0x05, 0x06, 0x07];
    f.push((ethertype >> 8) as u8);
    f.push(ethertype as u8);
    f.extend_from_slice(payload);
    f
}

fn ipv4(protocol: u8, src: [u8; 4], dst: [u8; 4], payload: &[u8]) -> Vec<u8> {
    let total = 20 + payload.len();
    let mut p = vec![0x45, 0x00, (total >> 8) as u8, total as u8, 0, 0, 0x40, 0, 64, protocol, 0, 0];
    p.extend_from_slice(&src);
    p.extend_from_slice(&dst);
    p.extend_from_slice(payload);
    p
}

fn ipv6(next: u8, src: [u8; 16], dst: [u8; 16], payload: &[u8]) -> Vec<u8> {
    let len = payload.len();
    let mut p = vec![0x60, 0, 0, 0, (len >> 8) as u8, len as u8, next, 64];
    p.extend_from_slice(&src);
    p.extend_from_slice(&dst);
    p.extend_from_slice(payload);
    p
}

fn tcp(sport: u16, dport: u16, options: &[u8], payload: &[u8]) -> Vec<u8> {
    let words = (20 + options.len()) / 4;
    let mut t = vec![(sport >> 8) as u8, sport as u8, (dport >> 8) as u8, dport as u8];
    t.extend_from_slice(&[0, 0, 0, 1, 0, 0, 0, 0, (words << 4) as u8, 0x18, 0xff, 0xff, 0, 0, 0, 0]);
    t.extend_from_slice(options);
    t.extend_from_slice(payload);
    t
}

fn udp(sport: u16, dport: u16, payload: &[u8]) -> Vec<u8> {
    let len = 8 + payload.len();
    let mut u = vec![(sport >> 8) as u8, sport as u8, (dport >> 8) as u8, dport as u8];
    u.extend_from_slice(&[(len >> 8) as u8, len as u8, 0, 0]);
    u.extend_from_slice(payload);
    u
}

#[test]
fn short_frames_are_dropped_silently() {
    for n in 0..14 {
        let f = vec![0x08u8; n];
        assert!(parse_ethernet(&f).is_none());
        assert_eq!(process_frame(&f), "");
    }
    assert!(parse_ethernet(&[0u8; 14]).is_some());
}

#[test]
fn ethernet_fields_are_read() {
    let f = ethernet(0x86dd, &[1, 2, 3]);
    let e = parse_ethernet(&f).unwrap();
    assert_eq!(e.destination, &[0xde, 0xad, 0xbe, 0xef, 0x00, 0x01]);
    assert_eq!(e.source, &[0x02, 0x03, 0x04, 0x05, 0x06, 0x07]);
    assert_eq!(e.ethertype, 0x86dd);
    assert_eq!(e.payload, &[1, 2, 3]);
}

#[test]
fn ipv4_addresses_are_dotted_quads() {
    let p = ipv4(17, [192, 168, 1, 10], [10, 0, 0, 255], &[]);
    let ip = parse_ipv4(&p).unwrap();
    assert_eq!(ip.get_source(), "192.168.1.10");
    assert_eq!(ip.get_destination(), "10.0.0.255");
    assert_eq!(ip.protocol, 17);
    assert_eq!(ipv4_text(&[0, 0, 0, 0]), "0.0.0.0");
}

#[test]
fn ipv4_rejects_short_or_bad_header_length() {
    let mut p = ipv4(6, [1, 2, 3, 4], [5, 6, 7, 8], &[]);
    assert!(parse_ipv4(&p[..19]).is_none());
    p[0] = 0x44;
    assert!(parse_ipv4(&p).is_none());
    p[0] = 0x46;
    assert!(parse_ipv4(&p).is_none());
    p.extend_from_slice(&[0, 0, 0, 0]);
    assert!(parse_ipv4(&p).is_some());
}

#[test]
fn ipv4_payload_follows_declared_header_and_total_length() {
    let mut p = ipv4(17, [1, 2, 3, 4], [5, 6, 7, 8], &[9, 9, 9]);
    p[0] = 0x46;
    p.splice(20..20, [1, 1, 1, 1]);
    p[3] = 27;
    p.extend_from_slice(&[0, 0, 0]);
    let ip = parse_ipv4(&p).unwrap();
    assert_eq!(ip.get_payload(), &[9, 9, 9]);
}

#[test]
fn ipv6_fields_and_text() {
    let mut src = [0u8; 16];
    src[0] = 0x20;
    src[1] = 0x01;
    src[2] = 0x0d;
    src[3] = 0xb8;
    src[15] = 1;
    let dst = [0xffu8; 16];
    let p = ipv6(6, src, dst, &[7, 7]);
    let ip = parse_ipv6(&p).unwrap();
    assert_eq!(ip.next_header, 6);
    assert_eq!(ip.get_source(), "2001:db8::1");
    assert_eq!(ip.get_destination(), "ffff:ffff:ffff:ffff:ffff:ffff:ffff:ffff");
    assert_eq!(ip.get_payload(), &[7, 7]);
    assert!(parse_ipv6(&p[..39]).is_none());
    assert_eq!(ipv6_text(&[0u8; 16]), "::");
}

#[test]
fn tcp_payload_skips_options() {
    let t = tcp(443, 51514, &[1, 1, 1, 1, 2, 4, 5, 180], b"OK");
    let seg = parse_tcp(&t).unwrap();
    assert_eq!(seg.source, 443);
    assert_eq!(seg.destination, 51514);
    assert_eq!(seg.get_payload(), b"OK");
    assert_eq!(seg.get_source(), "443");
    assert!(parse_tcp(&t[..19]).is_none());
}

#[test]
fn udp_fields() {
    let u = udp(53, 65535, b"xyz");
    let d = parse_udp(&u).unwrap();
    assert_eq!(d.get_source(), "53");
    assert_eq!(d.get_destination(), "65535");
    assert_eq!(d.get_payload(), b"xyz");
    assert!(parse_udp(&u[..7]).is_none());
}

#[test]
fn dump_of_ab_nul() {
    assert_eq!(dump_payload(&[b'A', b'B', 0x00]), "AB00");
}

#[test]
fn dump_hex_for_whitespace_controls_and_high_bytes() {
    assert_eq!(dump_payload(&[b' ', b'\n', b'\t', 0x7f, 0xab, b'~', b'!']), "200A097FAB~!");
    assert_eq!(dump_payload(&[]), "");
}

#[test]
fn ipv4_tcp_frame_renders_block() {
    let f = ethernet(0x0800, &ipv4(6, [192, 168, 1, 10], [10, 0, 0, 1], &tcp(443, 51514, &[], b"hi!")));
    let expected = format!("Captured a TCP packet from 192.168.1.10:443 to 10.0.0.1:51514\nhi!{}", SEP);
    assert_eq!(process_frame(&f), expected);
}

#[test]
fn ipv4_tcp_frame_with_options_and_padding() {
    let mut f = ethernet(
        0x0800,
        &ipv4(6, [1, 2, 3, 4], [5, 6, 7, 8], &tcp(80, 8080, &[1, 1, 1, 1], b"GET /")),
    );
    f.extend_from_slice(&[0, 0, 0, 0]);
    let expected = format!("Captured a TCP packet from 1.2.3.4:80 to 5.6.7.8:8080\nGET20/{}", SEP);
    assert_eq!(process_frame(&f), expected);
}

#[test]
fn ipv4_udp_frame_renders_block() {
    let f = ethernet(0x0800, &ipv4(17, [127, 0, 0, 1], [8, 8, 4, 4], &udp(5353, 53, &[0x00, b'q'])));
    let expected = format!("Captured a UDP packet from 127.0.0.1:5353 to 8.8.4.4:53\n00q{}", SEP);
    assert_eq!(process_frame(&f), expected);
}

#[test]
fn ipv6_udp_frame_renders_block() {
    let mut src = [0u8; 16];
    src[15] = 1;
    let mut dst = [0u8; 16];
    dst[0] = 0xfe;
    dst[1] = 0x80;
    dst[15] = 0x2a;
    let f = ethernet(0x86dd, &ipv6(17, src, dst, &udp(1000, 2000, b"Z")));
    let expected = format!("Captured a UDP packet from ::1:1000 to fe80::2a:2000\nZ{}", SEP);
    assert_eq!(process_frame(&f), expected);
}

#[test]
fn render_uses_both_layers() {
    let p = ipv4(6, [9, 8, 7, 6], [5, 4, 3, 2], &[]);
    let ip = parse_ipv4(&p).unwrap();
    let t = tcp(1, 2, &[], &[0x41, 0x20]);
    let seg = parse_tcp(&t).unwrap();
    assert_eq!(
        render_packet_info(&ip, &seg, "TCP"),
        format!("Captured a TCP packet from 9.8.7.6:1 to 5.4.3.2:2\nA20{}", SEP)
    );
}

#[test]
fn same_frame_twice_gives_same_output() {
    let f = ethernet(0x0800, &ipv4(6, [1, 1, 1, 1], [2, 2, 2, 2], &tcp(10, 20, &[], b"data")));
    let a = process_frame(&f);
    let b = process_frame(&f);
    assert_eq!(a, b);
    assert!(a.starts_with("Captured a TCP packet"));
}

#[test]
fn arp_frame_gives_one_diagnostic_line() {
    let f = ethernet(0x0806, &[0u8; 28]);
    let out = process_frame(&f);
    assert_eq!(out, "Not an IPv4 or IPv6 packet\n");
    assert_eq!(out.lines().count(), 1);
    assert!(!out.contains("Captured"));
}

#[test]
fn short_udp_region_gives_no_block_and_next_frame_still_decodes() {
    let f = ethernet(0x0800, &ipv4(17, [1, 2, 3, 4], [5, 6, 7, 8], &[0, 53, 0, 53, 0, 8, 0]));
    let out = process_frame(&f);
    assert_eq!(out, "UDP header too short\n");
    let g = ethernet(0x0800, &ipv4(17, [1, 2, 3, 4], [5, 6, 7, 8], &udp(1, 2, b"ok")));
    assert!(process_frame(&g).starts_with("Captured a UDP packet from 1.2.3.4:1 to 5.6.7.8:2\n"));
}

#[test]
fn other_diagnostics() {
    let icmp = ethernet(0x0800, &ipv4(1, [1, 2, 3, 4], [5, 6, 7, 8], &[8, 0, 0, 0]));
    assert_eq!(process_frame(&icmp), "Not a TCP or UDP packet\n");
    let short_ip = ethernet(0x0800, &[0x45, 0, 0]);
    assert_eq!(process_frame(&short_ip), "IPv4 header too short\n");
    let short_ip6 = ethernet(0x86dd, &[0x60; 39]);
    assert_eq!(process_frame(&short_ip6), "IPv6 header too short\n");
    let short_tcp = ethernet(0x0800, &ipv4(6, [1, 2, 3, 4], [5, 6, 7, 8], &[0; 19]));
    assert_eq!(process_frame(&short_tcp), "TCP header too short\n");
}

fn groups(g: [u16; 8]) -> [u8; 16] {
    let mut a = [0u8; 16];
    for i in 0..8 {
        a[2 * i] = (g[i] >> 8) as u8;
        a[2 * i + 1] = g[i] as u8;
    }
    a
}

#[test]
fn ipv6_text_compresses_first_longest_zero_run() {
    assert_eq!(ipv6_text(&groups([1, 0, 0, 2, 0, 0, 3, 4])), "1::2:0:0:3:4");
    assert_eq!(ipv6_text(&groups([1, 0, 0, 2, 0, 0, 0, 3])), "1:0:0:2::3");
    assert_eq!(ipv6_text(&groups([1, 0, 2, 3, 4, 5, 6, 7])), "1:0:2:3:4:5:6:7");
    assert_eq!(ipv6_text(&groups([0, 0, 0, 0, 0, 0, 0, 1])), "::1");
    assert_eq!(ipv6_text(&groups([0xabcd, 0, 0, 0, 0, 0, 0, 0])), "abcd::");
    assert_eq!(ipv6_text(&groups([0, 0, 0, 0, 0, 0xffff, 0x0a00, 0x0001])), "::ffff:10.0.0.1");
}
