use ntk::frames::IcmpResponse;
use ntk::interfaces::{
    first_name_matching, get_interface, get_netdev_friendly_name, interface_name_matches,
    interface_with_address, is_loopback_interface, normalize_interface_name, position_of_address,
    InterfaceNames, NetdevInterfaceNameMap,
};
use ntk::error::NtkError;
use ntk::ipv4::{IpAddress, Ipv4};
use ntk::trace::{
    captured_reply, echo_capture_filter, expired_line, ping_reply_line, reply_prefix, silent_line, unanswered,
    CapturedReply, HopLine, PingLine, TraceTracker,
};

fn ip(a: u8, b: u8, c: u8, d: u8) -> Ipv4 {
    Ipv4 { a, b, c, d }
}

#[test]
fn hops_come_out_in_ttl_order() {
    let target = ip(8, 8, 8, 8);
    let mut t = TraceTracker::new(vec![100, 200, 300], target);
    assert_eq!(t.next_ttl(), 1);
    let s = t.on_reply(2, ip(10, 0, 0, 2), false, 250);
    assert!(s.lines.is_empty());
    assert!(!s.finished && !s.all_received);
    let s = t.on_reply(1, ip(10, 0, 0, 1), false, 150);
    assert_eq!(
        s.lines,
        vec![
            HopLine { ttl: 1, addr: ip(10, 0, 0, 1), sent_at: 100, rx_time: 150 },
            HopLine { ttl: 2, addr: ip(10, 0, 0, 2), sent_at: 200, rx_time: 250 }
        ]
    );
    assert_eq!(t.next_ttl(), 3);
    let s = t.on_reply(3, target, true, 400);
    assert_eq!(s.lines, vec![HopLine { ttl: 3, addr: target, sent_at: 300, rx_time: 400 }]);
    assert!(s.finished);
}

#[test]
fn a_silent_hop_holds_the_report() {
    let target = ip(1, 1, 1, 1);
    let mut t = TraceTracker::new(vec![10, 20, 30], target);
    let s = t.on_reply(2, ip(10, 0, 0, 2), false, 25);
    assert!(s.lines.is_empty());
    let s = t.on_reply(3, target, true, 40);
    assert!(s.lines.is_empty());
    assert!(!s.finished);
    let s = t.on_reply(9, target, true, 40);
    assert!(s.lines.is_empty() && !s.all_received);
    let s = t.on_reply(0, target, true, 40);
    assert!(s.lines.is_empty() && !s.all_received && !s.finished);
    assert_eq!(t.next_ttl(), 1);
}

#[test]
fn a_final_reply_from_another_host_does_not_end_the_trace() {
    let target = ip(1, 1, 1, 1);
    let mut t = TraceTracker::new(vec![10, 20], target);
    let s = t.on_reply(1, ip(9, 9, 9, 9), true, 15);
    assert_eq!(s.lines.len(), 1);
    assert!(!s.finished);
    let s = t.on_reply(2, ip(10, 0, 0, 2), false, 26);
    assert_eq!(s.lines, vec![HopLine { ttl: 2, addr: ip(10, 0, 0, 2), sent_at: 20, rx_time: 26 }]);
    assert!(s.all_received);
}

#[test]
fn ping_lines() {
    let starts = vec![1000u128, 2000];
    assert_eq!(
        ping_reply_line(&starts, 1, ip(10, 0, 0, 1), false, 1500),
        PingLine::Reply { seq: 1, src: ip(10, 0, 0, 1), elapsed: 500 }
    );
    assert_eq!(ping_reply_line(&starts, 2, ip(162, 158, 61, 109), true, 0), PingLine::Expired { seq: 2, src: ip(162, 158, 61, 109) });
    assert_eq!(ping_reply_line(&starts, 3, ip(10, 0, 0, 1), false, 0), PingLine::OutOfRange { seq: 3 });
    assert_eq!(ping_reply_line(&starts, 0, ip(10, 0, 0, 1), false, 0), PingLine::OutOfRange { seq: 0 });
}

#[test]
fn unanswered_probes_are_the_missing_ones() {
    assert_eq!(unanswered(4, &vec![2, 4]), vec![1, 3]);
    assert_eq!(unanswered(3, &vec![]), vec![1, 2, 3]);
    assert_eq!(unanswered(3, &vec![3, 1, 2, 9]), Vec::<u16>::new());
    assert_eq!(unanswered(0, &vec![1]), Vec::<u16>::new());
}

#[test]
fn captured_replies() {
    let e = IcmpResponse::EchoReply { seq: 4, src: ip(1, 1, 1, 1) };
    let x = IcmpResponse::TimeExceeded { seq: 2, src: ip(10, 0, 0, 1) };
    assert_eq!(captured_reply(e, false), CapturedReply { seq: 4, src: ip(1, 1, 1, 1), is_final: true, is_timeout: false });
    assert_eq!(captured_reply(e, true), CapturedReply { seq: 4, src: ip(1, 1, 1, 1), is_final: true, is_timeout: false });
    assert_eq!(captured_reply(x, false), CapturedReply { seq: 2, src: ip(10, 0, 0, 1), is_final: true, is_timeout: true });
    assert_eq!(captured_reply(x, true), CapturedReply { seq: 2, src: ip(10, 0, 0, 1), is_final: false, is_timeout: true });
    assert_eq!(echo_capture_filter(), "icmp and (icmp[icmptype] = icmp-echoreply or icmp[icmptype] = 11)");
}

#[test]
fn interface_names() {
    assert_eq!(normalize_interface_name("\\Device\\NPF_{ABC}"), "{ABC}");
    assert_eq!(normalize_interface_name("eth0"), "eth0");
    assert_eq!(normalize_interface_name("\\Device\\NPF_"), "");
    assert!(interface_name_matches("\\Device\\NPF_{ABC}", "{ABC}"));
    assert!(interface_name_matches("{ABC}", "\\Device\\NPF_{ABC}"));
    assert!(interface_name_matches("eth0", "eth0"));
    assert!(!interface_name_matches("eth0", "eth1"));
    assert!(is_loopback_interface("lo"));
    assert!(is_loopback_interface("LO0"));
    assert!(is_loopback_interface("Loopback Pseudo-Interface 1"));
    assert!(!is_loopback_interface("lo1"));
    assert_eq!("\u{212A}".to_lowercase(), "k");
    assert!(is_loopback_interface("LOOPBAC\u{212A} 1"));
    assert!(!is_loopback_interface("\u{130}lo"));
    assert!(!is_loopback_interface("eth0"));
}

fn sample_map() -> NetdevInterfaceNameMap {
    NetdevInterfaceNameMap::build(&vec![
        InterfaceNames { name: String::from("\\Device\\NPF_{1111}"), friendly_name: Some(String::from("Wi-Fi")) },
        InterfaceNames { name: String::from("eth0"), friendly_name: None },
        InterfaceNames { name: String::from("docker0"), friendly_name: None },
    ])
}

#[test]
fn names_resolve() {
    let m = sample_map();
    assert_eq!(m.resolve_name("Wi-Fi"), Some(String::from("{1111}")));
    assert_eq!(m.resolve_name("eth0"), Some(String::from("eth0")));
    assert_eq!(m.resolve_name("{1111}"), Some(String::from("{1111}")));
    assert_eq!(m.resolve_name("\\Device\\NPF_{1111}"), Some(String::from("{1111}")));
    assert_eq!(m.resolve_name("dock"), Some(String::from("docker0")));
    assert_eq!(m.resolve_name("wlan7"), None);
}

#[test]
fn names_resolve_to_positions() {
    let m = sample_map();
    let pnet = vec![String::from("lo"), String::from("\\Device\\NPF_{1111}"), String::from("eth0")];
    assert_eq!(m.resolve_pnet("Wi-Fi", &pnet), Some(1));
    assert_eq!(m.resolve_pcap("eth0", &pnet), Some(2));
    assert_eq!(m.resolve_netdev("docker0", &pnet), None);
    assert_eq!(m.resolve_netdev("nothing", &pnet), None);
    assert_eq!(first_name_matching(&pnet, "{1111}"), Some(1));
    assert_eq!(first_name_matching(&pnet, "wlan0"), None);
}

#[test]
fn friendly_names() {
    let ifaces = vec![
        InterfaceNames { name: String::from("{ab-cd}"), friendly_name: Some(String::from("Ethernet")) },
        InterfaceNames { name: String::from("{ef}"), friendly_name: None },
    ];
    assert_eq!(get_netdev_friendly_name("\\Device\\NPF_{AB-CD}", &ifaces), "Ethernet");
    assert_eq!(get_netdev_friendly_name("\\Device\\NPF_{EF}", &ifaces), "Unknown");
    assert_eq!(get_netdev_friendly_name("\\Device\\NPF_{99}", &ifaces), "Unknown");
}

#[test]
fn interfaces_by_name_and_address() {
    let names = vec![String::from("lo"), String::from("eth0"), String::from("eth0")];
    assert_eq!(get_interface("eth0", &names), Some(1));
    assert_eq!(get_interface("eth", &names), None);
    let lists = vec![
        vec![IpAddress::V4(ip(127, 0, 0, 1))],
        vec![IpAddress::V6(5), IpAddress::V4(ip(10, 0, 0, 5))],
        vec![IpAddress::V4(ip(10, 0, 0, 5))],
    ];
    assert_eq!(position_of_address(&lists, ip(10, 0, 0, 5)), Some(1));
    assert_eq!(position_of_address(&lists, ip(10, 0, 0, 6)), None);
    assert_eq!(interface_with_address(&lists, ip(127, 0, 0, 1)).unwrap(), 0);
    match interface_with_address(&lists, ip(10, 9, 9, 9)) {
        Err(e @ NtkError::IpIfAssociationError(_)) => {
            assert_eq!(e.message(), "No interface exists with the assigned source IP: 10.9.9.9")
        }
        other => panic!("unexpected {:?}", other),
    }
}

#[test]
fn reply_line_pieces() {
    assert_eq!(reply_prefix(1, ip(10, 0, 0, 1)), format!("{:<3} {:<16} ", 1, "10.0.0.1"));
    assert_eq!(expired_line(1, ip(162, 158, 61, 109)), "1   162.158.61.109   *");
    assert_eq!(silent_line(9), "9 *");
    assert_eq!(reply_prefix(1000, ip(1, 1, 1, 1)), "1000 1.1.1.1          ");
}

#[test]
fn long_traces_fill_every_ttl() {
    let target = ip(9, 9, 9, 9);
    let sent: Vec<u128> = (0..255u128).collect();
    let mut t = TraceTracker::new(sent, target);
    let mut reported = Vec::new();
    for ttl in (1..=255u16).rev() {
        let step = t.on_reply(ttl, ip(10, 0, (ttl / 256) as u8, (ttl % 256) as u8), false, 1000);
        reported.extend(step.lines.iter().map(|l| l.ttl));
    }
    assert_eq!(reported, (1..=255u8).collect::<Vec<u8>>());
    assert_eq!(t.next_ttl(), 256);
}

#[test]
fn hop_times_are_handed_on() {
    let target = ip(4, 4, 4, 4);
    let mut t = TraceTracker::new(vec![500], target);
    let s = t.on_reply(1, target, true, 400);
    assert_eq!(s.lines, vec![HopLine { ttl: 1, addr: target, sent_at: 500, rx_time: 400 }]);
    assert!(s.finished);
}
