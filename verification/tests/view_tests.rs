use ntk::packets::{
    detect_datalink, get_timestamp, icmp_type_str, igmp_type_str, ip_offset, mac_string, parse_arp, parse_icmp,
    parse_igmp, parse_ipv4, parse_tcp, parse_udp, payload_line, tcp_flags_str, Datalink,
    ProtocolType,
};

fn ipv4_header(total_len: u16, proto: u8, src: [u8; 4], dst: [u8; 4]) -> Vec<u8> {
    let mut v = vec![0x45, 0, (total_len >> 8) as u8, (total_len & 0xff) as u8, 0, 0, 0x40, 0, 64, proto, 0, 0];
    v.extend_from_slice(&src);
    v.extend_from_slice(&dst);
    v
}

#[test]
fn flag_names() {
    assert_eq!(tcp_flags_str(0x12), "SYN+ACK");
    assert_eq!(tcp_flags_str(0), "NONE");
    assert_eq!(tcp_flags_str(0x14), "ACK+RST");
    assert_eq!(tcp_flags_str(0x18), "ACK+PSH");
    assert_eq!(tcp_flags_str(0x11), "ACK+FIN");
    assert_eq!(tcp_flags_str(0x3f), "SYN+ACK+FIN+RST+PSH+URG");
    assert_eq!(tcp_flags_str(0xc0), "NONE");
}

#[test]
fn type_names() {
    assert_eq!(icmp_type_str(0, 0), "Echo Reply");
    assert_eq!(icmp_type_str(8, 0), "Echo Request");
    assert_eq!(icmp_type_str(11, 1), "Frag Reassembly Exceeded");
    assert_eq!(icmp_type_str(3, 3), "Port Unreachable");
    assert_eq!(icmp_type_str(3, 9), "ICMP (other)");
    assert_eq!(icmp_type_str(5, 0), "ICMP (other)");
    assert_eq!(igmp_type_str(0x22), "Membership Report v3");
    assert_eq!(igmp_type_str(0x17), "Leave Group");
    assert_eq!(igmp_type_str(0x99), "IGMP (other)");
}

#[test]
fn timestamps() {
    assert_eq!(get_timestamp(3661, 5), "01:01:01.005");
    assert_eq!(get_timestamp(86399, 999), "23:59:59.999");
    assert_eq!(get_timestamp(86400, 0), "00:00:00.000");
    assert_eq!(get_timestamp(43200 + 754, 92), "12:12:34.092");
}

#[test]
fn link_layers() {
    assert_eq!(detect_datalink(0), Datalink::BsdLoopback);
    assert_eq!(detect_datalink(1), Datalink::Ethernet);
    let mut eth = vec![0u8; 14];
    eth[12] = 0x08;
    eth[13] = 0x06;
    assert_eq!(ip_offset(&eth, &Datalink::Ethernet, true), Some((14, 0x0806)));
    assert_eq!(ip_offset(&eth[..13], &Datalink::Ethernet, false), None);
    let le = 1u16.to_ne_bytes()[0] == 1;
    let lo = 2u32.to_ne_bytes();
    assert_eq!(ip_offset(&lo, &Datalink::BsdLoopback, le), Some((4, 0x0800)));
    let other = 30u32.to_ne_bytes();
    assert_eq!(ip_offset(&other, &Datalink::BsdLoopback, le), None);
    assert_eq!(ip_offset(&lo[..3], &Datalink::BsdLoopback, le), None);
    assert_eq!(ip_offset(&[2, 0, 0, 0], &Datalink::BsdLoopback, true), Some((4, 0x0800)));
    assert_eq!(ip_offset(&[2, 0, 0, 0], &Datalink::BsdLoopback, false), None);
    assert_eq!(ip_offset(&[0, 0, 0, 2, 0x45], &Datalink::BsdLoopback, false), Some((4, 0x0800)));
    assert_eq!(ip_offset(&[0, 0, 0, 2], &Datalink::BsdLoopback, true), None);
}

#[test]
fn short_payloads() {
    assert!(matches!(parse_icmp(&[8, 0, 0]), ProtocolType::Icmp { type_str: "ICMP (short)", id: 0, seq: 0 }));
    assert!(matches!(parse_igmp(&[1]), ProtocolType::Igmp { type_str: "IGMP (short)", .. }));
    assert!(matches!(parse_tcp(&[0; 19]), ProtocolType::Tcp { src_port: 0, dst_port: 0, ref flags } if flags == "?"));
    assert!(matches!(parse_udp(&[0; 7]), ProtocolType::Udp { src_port: 0, dst_port: 0 }));
    assert!(parse_ipv4(&[0x45; 19]).is_none());
    assert!(parse_arp(&[0; 27]).is_none());
}

#[test]
fn echo_request_line() {
    let mut pkt = ipv4_header(84, 1, [10, 0, 0, 237], [10, 0, 0, 1]);
    pkt.extend_from_slice(&[8, 0, 0, 0, 0x74, 0x74, 0, 1]);
    pkt.extend_from_slice(&[0u8; 56]);
    let s = parse_ipv4(&pkt).unwrap();
    assert_eq!(
        s.summary_line("12:04:11.524"),
        "12:04:11.524|  ICMP Echo Request            10.0.0.237            => 10.0.0.1              len: 84  id=29812 seq=1"
    );
}

#[test]
fn tcp_line() {
    let mut pkt = ipv4_header(60, 6, [10, 0, 0, 237], [10, 0, 0, 1]);
    let mut tcp = vec![0u8; 40];
    tcp[0] = (44547u16 >> 8) as u8;
    tcp[1] = (44547u16 & 0xff) as u8;
    tcp[3] = 21;
    tcp[13] = 0x02;
    pkt.extend_from_slice(&tcp);
    assert_eq!(
        payload_line(&pkt, 0x0800, "12:05:05.796"),
        Some(String::from(
            "12:05:05.796|  TCP  SYN                     10.0.0.237:44547      => 10.0.0.1:21           len: 60  "
        ))
    );
}

#[test]
fn udp_line() {
    let mut pkt = ipv4_header(76, 17, [10, 0, 0, 237], [185, 125, 190, 57]);
    pkt.extend_from_slice(&[(43413u16 >> 8) as u8, (43413u16 & 0xff) as u8, 0, 123, 0, 56, 0, 0]);
    let s = parse_ipv4(&pkt).unwrap();
    assert_eq!(
        s.summary_line("12:05:51.876"),
        "12:05:51.876|  UDP                          10.0.0.237:43413      => 185.125.190.57:123    len: 76  "
    );
}

#[test]
fn igmp_line() {
    let mut pkt = ipv4_header(40, 2, [10, 0, 0, 151], [224, 0, 0, 22]);
    pkt.extend_from_slice(&[0x22, 0, 0, 0, 0, 0, 0, 1]);
    let s = parse_ipv4(&pkt).unwrap();
    assert_eq!(
        s.summary_line("12:03:53.092"),
        "12:03:53.092|  IGMP Membership Report v3    10.0.0.151            => 224.0.0.22            len: 40  group=0.0.0.1"
    );
}

#[test]
fn other_protocol_line() {
    let pkt = ipv4_header(20, 89, [1, 1, 1, 1], [2, 2, 2, 2]);
    let s = parse_ipv4(&pkt).unwrap();
    assert!(matches!(s.protocol, ProtocolType::Other(89)));
    assert_eq!(
        s.summary_line("00:00:00.000"),
        "00:00:00.000|  89                           1.1.1.1               => 2.2.2.2               len: 20  "
    );
}

#[test]
fn arp_line() {
    let mut arp = vec![0, 1, 0x08, 0x00, 6, 4, 0, 1];
    arp.extend_from_slice(&[0xaa; 6]);
    arp.extend_from_slice(&[10, 0, 0, 237]);
    arp.extend_from_slice(&[0; 6]);
    arp.extend_from_slice(&[10, 0, 0, 151]);
    assert_eq!(
        payload_line(&arp, 0x0806, "12:07:05.511"),
        Some(String::from(
            "12:07:05.511|  ARP  Request                 10.0.0.237            => 10.0.0.151            MAC: aa:aa:aa:aa:aa:aa => 00:00:00:00:00:00"
        ))
    );
    let mut reply = arp.clone();
    reply[7] = 2;
    assert_eq!(parse_arp(&reply).unwrap().op_str, "Reply");
    let mut odd = arp.clone();
    odd[7] = 9;
    assert_eq!(parse_arp(&odd).unwrap().op_str, "Unknown");
    let mut not_ipv4 = arp.clone();
    not_ipv4[2] = 0x86;
    assert!(parse_arp(&not_ipv4).is_none());
}

#[test]
fn other_ethertypes_show_nothing() {
    assert_eq!(payload_line(&[0u8; 40], 0x86dd, "00:00:00.000"), None);
    assert_eq!(payload_line(&[0x45u8; 10], 0x0800, "00:00:00.000"), None);
}

#[test]
fn header_length_longer_than_packet() {
    let mut pkt = ipv4_header(20, 6, [1, 1, 1, 1], [2, 2, 2, 2]);
    pkt[0] = 0x4f;
    assert!(parse_ipv4(&pkt).is_none());
}

#[test]
fn mac_text_is_lower_case_pairs() {
    assert_eq!(mac_string([0xe4, 0xbf, 0xfa, 0x0a, 0x00, 0xff]), "e4:bf:fa:0a:00:ff");
    assert_eq!(mac_string([0; 6]), "00:00:00:00:00:00");
}
