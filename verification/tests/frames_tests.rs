use ntk::frames::{
    build_ack_packet, build_arp_request, build_echo_request, build_syn_packet, build_tcp_frame,
    choose_source_port, echo_identifier, get_os_tcp_defaults,
    parse_arp_reply, parse_icmp_packet, parse_tcp_reply, tcp_timestamp_value, IcmpResponse,
};
use ntk::ipv4::Ipv4;
use ntk::packets::parse_arp;

fn ip(a: u8, b: u8, c: u8, d: u8) -> Ipv4 {
    Ipv4 { a, b, c, d }
}

/// The one's-complement sum of 16-bit words (odd length padded with zero).
fn ones_sum(bytes: &[u8]) -> u32 {
    let mut sum: u32 = 0;
    let mut i = 0;
    while i < bytes.len() {
        let hi = bytes[i] as u32;
        let lo = if i + 1 < bytes.len() { bytes[i + 1] as u32 } else { 0 };
        sum += (hi << 8) | lo;
        i += 2;
    }
    while sum > 0xffff {
        sum = (sum & 0xffff) + (sum >> 16);
    }
    sum
}

fn tcp_sum_ok(segment: &[u8], src: Ipv4, dst: Ipv4) -> bool {
    let mut pseudo = vec![src.a, src.b, src.c, src.d, dst.a, dst.b, dst.c, dst.d, 0, 6];
    pseudo.push((segment.len() >> 8) as u8);
    pseudo.push((segment.len() & 0xff) as u8);
    pseudo.extend_from_slice(segment);
    ones_sum(&pseudo) == 0xffff
}

fn eth_ipv4(proto: u8, src: [u8; 4], payload: &[u8]) -> Vec<u8> {
    let total = 20 + payload.len();
    let mut f = vec![0u8; 12];
    f.extend_from_slice(&[0x08, 0x00]);
    f.extend_from_slice(&[0x45, 0, (total >> 8) as u8, (total & 0xff) as u8, 0, 0, 0, 0, 64, proto, 0, 0]);
    f.extend_from_slice(&src);
    f.extend_from_slice(&[10, 0, 0, 2]);
    f.extend_from_slice(payload);
    f
}

#[test]
fn tcp_reply_is_read_from_a_frame() {
    let mut tcp = vec![0u8; 20];
    tcp[0] = 0x01;
    tcp[1] = 0xbb;
    tcp[13] = 0x12;
    let f = eth_ipv4(6, [1, 2, 3, 4], &tcp);
    assert_eq!(parse_tcp_reply(&f), Some((443, 0x12)));
    let udp = eth_ipv4(17, [1, 2, 3, 4], &tcp);
    assert_eq!(parse_tcp_reply(&udp), None);
    let short = eth_ipv4(6, [1, 2, 3, 4], &tcp[..10]);
    assert_eq!(parse_tcp_reply(&short), None);
    let mut arp = f.clone();
    arp[12] = 0x08;
    arp[13] = 0x06;
    assert_eq!(parse_tcp_reply(&arp), None);
}

#[test]
fn echo_reply_is_read_from_a_frame() {
    let icmp = [0u8, 0, 0, 0, 0x12, 0x34, 0, 7];
    let f = eth_ipv4(1, [8, 8, 8, 8], &icmp);
    assert_eq!(parse_icmp_packet(&f), Some(IcmpResponse::EchoReply { seq: 7, src: ip(8, 8, 8, 8) }));
}

#[test]
fn time_exceeded_carries_the_probe() {
    let mut icmp = vec![11u8, 0, 0, 0, 0, 0, 0, 0];
    icmp.extend_from_slice(&[0x45, 0, 0, 28, 0, 0, 0, 0, 1, 1, 0, 0, 10, 0, 0, 2, 8, 8, 8, 8]);
    icmp.extend_from_slice(&[8, 0, 0, 0, 0x12, 0x34, 0, 3]);
    let f = eth_ipv4(1, [10, 0, 0, 1], &icmp);
    assert_eq!(parse_icmp_packet(&f), Some(IcmpResponse::TimeExceeded { seq: 3, src: ip(10, 0, 0, 1) }));
    let cut = eth_ipv4(1, [10, 0, 0, 1], &icmp[..6]);
    assert_eq!(parse_icmp_packet(&cut), None);
    let eight = eth_ipv4(1, [10, 0, 0, 1], &icmp[..8]);
    assert_eq!(parse_icmp_packet(&eight), None);
    let other = eth_ipv4(1, [10, 0, 0, 1], &[3u8, 3, 0, 0, 0, 0, 0, 0]);
    assert_eq!(parse_icmp_packet(&other), None);
}

#[test]
fn arp_request_layout() {
    let mac = [0xaa, 0xbb, 0xcc, 0xdd, 0xee, 0xff];
    let f = build_arp_request(&mac, ip(10, 0, 0, 5), ip(10, 0, 0, 1));
    assert_eq!(f.len(), 42);
    assert_eq!(&f[0..6], &[0xff; 6]);
    assert_eq!(&f[6..12], &mac);
    assert_eq!(&f[12..14], &[0x08, 0x06]);
    assert_eq!(&f[14..22], &[0, 1, 0x08, 0, 6, 4, 0, 1]);
    assert_eq!(&f[22..28], &mac);
    assert_eq!(&f[28..32], &[10, 0, 0, 5]);
    assert_eq!(&f[32..38], &[0; 6]);
    assert_eq!(&f[38..42], &[10, 0, 0, 1]);
    let a = parse_arp(&f[14..]).unwrap();
    assert_eq!(a.op_str, "Request");
    assert_eq!(a.sender_ip, ip(10, 0, 0, 5));
    assert_eq!(a.target_ip, ip(10, 0, 0, 1));
    assert_eq!(parse_arp_reply(&f), None);
}

#[test]
fn arp_reply_gives_the_sender() {
    let mac = [1, 2, 3, 4, 5, 6];
    let mut f = build_arp_request(&mac, ip(192, 168, 1, 9), ip(192, 168, 1, 1));
    f[21] = 2;
    assert_eq!(parse_arp_reply(&f), Some((ip(192, 168, 1, 9), mac)));
    assert_eq!(parse_arp_reply(&f[..41]), None);
}

#[test]
fn os_defaults() {
    assert_eq!(get_os_tcp_defaults("linux"), (64240, 7));
    assert_eq!(get_os_tcp_defaults("windows"), (65535, 8));
    assert_eq!(get_os_tcp_defaults("macos"), (65535, 6));
    assert_eq!(get_os_tcp_defaults("freebsd"), (65535, 7));
}

#[test]
fn timestamp_option_keeps_the_low_bits() {
    assert_eq!(tcp_timestamp_value(0x1_0000_0005), 5);
    assert_eq!(tcp_timestamp_value(1234), 1234);
}

#[test]
fn syn_segment() {
    let src = ip(10, 0, 0, 2);
    let dst = ip(10, 0, 0, 1);
    let s = build_syn_packet(src, dst, 80, 40000, 64240, 7, 0x01020304);
    assert_eq!(s.len(), 40);
    assert_eq!(&s[0..4], &[0x9c, 0x40, 0, 80]);
    assert_eq!(&s[8..12], &[0, 0, 0, 0]);
    assert_eq!(&s[12..16], &[0xa0, 0x02, 0xfa, 0xf0]);
    assert_eq!(&s[18..20], &[0, 0]);
    assert_eq!(&s[20..28], &[2, 4, 0x05, 0xb4, 4, 2, 8, 10]);
    assert_eq!(&s[28..32], &[1, 2, 3, 4]);
    assert_eq!(&s[32..40], &[0, 0, 0, 0, 3, 3, 7, 1]);
    assert!(tcp_sum_ok(&s, src, dst));
    assert!(!tcp_sum_ok(&s, src, ip(10, 0, 0, 9)));
}

#[test]
fn ack_and_fin_segments() {
    let src = ip(192, 168, 0, 2);
    let dst = ip(192, 168, 0, 1);
    let a = build_ack_packet(src, dst, 22, 50000, false, 65535, 8, 99);
    assert_eq!(a.len(), 36);
    assert_eq!(&a[12..16], &[0x90, 0x10, 0xff, 0xff]);
    assert_eq!(&a[20..22], &[8, 10]);
    assert_eq!(&a[22..26], &[0, 0, 0, 99]);
    assert_eq!(&a[26..36], &[0, 0, 0, 0, 3, 3, 8, 1, 1, 1]);
    assert!(tcp_sum_ok(&a, src, dst));
    let f = build_ack_packet(src, dst, 22, 50000, true, 65535, 8, 99);
    assert_eq!(f[13], 0x01);
    assert!(tcp_sum_ok(&f, src, dst));
}

#[test]
fn frame_around_a_segment() {
    let src = ip(10, 0, 0, 2);
    let dst = ip(10, 0, 0, 1);
    let seg = build_syn_packet(src, dst, 443, 40001, 64240, 7, 5);
    let f = build_tcp_frame(&[1, 1, 1, 1, 1, 1], &[2, 2, 2, 2, 2, 2], src, dst, &seg);
    assert_eq!(f.len(), 74);
    assert_eq!(&f[0..6], &[2; 6]);
    assert_eq!(&f[6..12], &[1; 6]);
    assert_eq!(&f[12..14], &[0x08, 0x00]);
    assert_eq!(f[14], 0x45);
    assert_eq!(&f[16..18], &[0, 60]);
    assert_eq!(&f[20..24], &[0x40, 0, 64, 6]);
    assert_eq!(&f[26..30], &[10, 0, 0, 2]);
    assert_eq!(&f[30..34], &[10, 0, 0, 1]);
    assert_eq!(ones_sum(&f[14..34]), 0xffff);
    assert_eq!(&f[34..], &seg[..]);
    assert_eq!(parse_tcp_reply(&f), Some((40001, 0x02)));
}

#[test]
fn echo_request_bytes() {
    let p = build_echo_request(0x1234, 3);
    assert_eq!(p.len(), 64);
    assert_eq!(&p[0..2], &[8, 0]);
    assert_eq!(&p[4..8], &[0x12, 0x34, 0, 3]);
    assert!(p[8..].iter().all(|b| *b == 0));
    assert_eq!(ones_sum(&p), 0xffff);
    assert_eq!(echo_identifier(1234), 1234);
    assert_eq!(echo_identifier(65535), 65535);
    assert_eq!(echo_identifier(70000), 0);
}

#[test]
fn source_port_choice() {
    assert_eq!(choose_source_port(Some(4444)), 4444);
    for _ in 0..50 {
        let p = choose_source_port(None);
        assert!((32768..61000).contains(&p));
    }
}

fn folded(extra: u32, data: &[u8]) -> u32 {
    let mut sum = extra;
    let mut i = 0;
    while i < data.len() {
        let hi = data[i] as u32;
        let lo = if i + 1 < data.len() { data[i + 1] as u32 } else { 0 };
        sum += hi * 256 + lo;
        i += 2;
    }
    while sum > 0xffff {
        sum = (sum >> 16) + (sum & 0xffff);
    }
    sum
}

fn pseudo(src: Ipv4, dst: Ipv4, len: usize) -> u32 {
    let w = |a: u8, b: u8| (a as u32) * 256 + b as u32;
    w(src.a, src.b) + w(src.c, src.d) + w(dst.a, dst.b) + w(dst.c, dst.d) + 6 + len as u32
}

#[test]
fn built_packets_carry_right_checksums() {
    for (id, seq) in [(0u16, 1u8), (0x1234, 3), (0xffff, 255)] {
        let p = build_echo_request(id, seq);
        assert_eq!(folded(0, &p), 0xffff);
    }
    let src = ip(192, 168, 1, 20);
    let dst = ip(93, 184, 216, 34);
    let syn = build_syn_packet(src, dst, 443, 40001, 64240, 7, 0xdeadbeef);
    assert_eq!(folded(pseudo(src, dst, syn.len()), &syn), 0xffff);
    let ack = build_ack_packet(src, dst, 80, 50000, true, 1024, 2, 77);
    assert_eq!(folded(pseudo(src, dst, ack.len()), &ack), 0xffff);
    let f = build_tcp_frame(&[1, 1, 1, 1, 1, 1], &[2, 2, 2, 2, 2, 2], src, dst, &syn);
    assert_eq!(folded(0, &f[14..34]), 0xffff);
}

#[test]
fn echo_checksum_exact_value() {
    // Words: 0x0800, 0, 0x0001, 0x0001, then zeros: sum 0x0802, complement 0xf7fd.
    let p = build_echo_request(1, 1);
    assert_eq!((p[2], p[3]), (0xf7, 0xfd));
}
