use ntk::error::NtkError;
use ntk::ipv4::Ipv4;
use ntk::ports::port_map;
use ntk::scan::{
    bpf_filter, capture_duration_ms, classify_ack_reply, classify_syn_reply, first_hop,
    gateway_or_error, on_link, open_port_line, report_line, scan_mode, validate_source_ip,
    CapturedPacket, FirstHop, ReplySieve, ScanMode,
};

fn ip(a: u8, b: u8, c: u8, d: u8) -> Ipv4 {
    Ipv4 { a, b, c, d }
}

#[test]
fn modes() {
    assert_eq!(scan_mode(true, true, true, true), ScanMode::FullHandshake);
    assert_eq!(scan_mode(false, true, false, true), ScanMode::AckProbe { fin: false });
    assert_eq!(scan_mode(false, false, true, false), ScanMode::AckProbe { fin: true });
    assert_eq!(scan_mode(false, false, false, true), ScanMode::SynProbe { show_reset: true });
    assert_eq!(scan_mode(false, false, false, false), ScanMode::SynProbe { show_reset: false });
}

#[test]
fn source_addresses() {
    let addrs = vec![ip(10, 0, 0, 5), ip(10, 0, 0, 6)];
    assert_eq!(validate_source_ip(&addrs, ip(10, 0, 0, 6)).unwrap(), ip(10, 0, 0, 6));
    assert_eq!(validate_source_ip(&addrs, ip(172, 16, 0, 1)).unwrap(), ip(10, 0, 0, 5));
    match validate_source_ip(&vec![], ip(172, 16, 0, 1)) {
        Err(e @ NtkError::IpIfAssociationError(_)) => {
            assert_eq!(e.message(), "No interface exists with the assigned source IP: 172.16.0.1")
        }
        other => panic!("unexpected {:?}", other),
    }
}

#[test]
fn capture_filter() {
    assert_eq!(
        bpf_filter(ip(10, 0, 0, 1), 40000),
        "tcp and src host 10.0.0.1 and dst port 40000 and (tcp[tcpflags] & (tcp-syn|tcp-ack) == (tcp-syn|tcp-ack) or tcp[tcpflags] & tcp-rst != 0)"
    );
}

#[test]
fn capture_durations() {
    assert_eq!(capture_duration_ms(1000, 10, 10), 20000);
    assert_eq!(capture_duration_ms(0, 10, 3), 3000);
    assert_eq!(capture_duration_ms(1, 0, 0), 0);
}

#[test]
fn reply_classes() {
    let open = CapturedPacket { source_port: 80, is_syn_ack: true };
    let rst = CapturedPacket { source_port: 80, is_syn_ack: false };
    assert_eq!(classify_syn_reply(80, 0x12, false), Some(open));
    assert_eq!(classify_syn_reply(80, 0x14, false), None);
    assert_eq!(classify_syn_reply(80, 0x14, true), Some(rst));
    assert_eq!(classify_syn_reply(80, 0x16, true), Some(open));
    assert_eq!(classify_syn_reply(80, 0x10, true), None);
    assert_eq!(classify_ack_reply(80, 0x04), Some(rst));
    assert_eq!(classify_ack_reply(80, 0x12), None);
}

#[test]
fn each_port_is_reported_once() {
    let mut sieve = ReplySieve::new(false, true);
    assert_eq!(sieve.on_reply(22, 0x12), Some(CapturedPacket { source_port: 22, is_syn_ack: true }));
    assert_eq!(sieve.on_reply(22, 0x12), None);
    assert_eq!(sieve.on_reply(22, 0x04), None);
    assert_eq!(sieve.on_reply(23, 0x10), None);
    assert_eq!(sieve.on_reply(23, 0x04), Some(CapturedPacket { source_port: 23, is_syn_ack: false }));
    assert_eq!(sieve.on_reply(23, 0x12), None);
    let mut quiet = ReplySieve::new(false, false);
    assert_eq!(quiet.on_reply(25, 0x04), None);
    assert_eq!(quiet.on_reply(25, 0x12), Some(CapturedPacket { source_port: 25, is_syn_ack: true }));
    let mut ack = ReplySieve::new(true, false);
    assert_eq!(ack.on_reply(80, 0x12), None);
    assert_eq!(ack.on_reply(80, 0x04), Some(CapturedPacket { source_port: 80, is_syn_ack: false }));
    assert_eq!(ack.on_reply(80, 0x04), None);
}

#[test]
fn report_lines() {
    let m = port_map();
    let open = CapturedPacket { source_port: 443, is_syn_ack: true };
    let rst = CapturedPacket { source_port: 8007, is_syn_ack: false };
    assert_eq!(report_line(&m, open, false), "open: 443");
    assert_eq!(report_line(&m, open, true), "443: HTTPS");
    assert_eq!(report_line(&m, rst, false), "RST: 8007");
    assert_eq!(report_line(&m, rst, true), "RST: 8007: Unknown");
    assert_eq!(report_line(&m, CapturedPacket { source_port: 49152, is_syn_ack: true }, true), "49152: Dynamic / Ephemeral Port");
    assert_eq!(open_port_line(&m, 53, true), "53: DNS");
    assert_eq!(open_port_line(&m, 53, false), "53");
    assert_eq!(open_port_line(&m, 7777, true), "7777: Unknown");
}

#[test]
fn links() {
    let nets = vec![(ip(192, 168, 1, 10), 24u8), (ip(10, 8, 0, 2), 16u8)];
    assert!(on_link(&nets, ip(192, 168, 1, 200)));
    assert!(on_link(&nets, ip(10, 8, 255, 1)));
    assert!(!on_link(&nets, ip(8, 8, 8, 8)));
    assert!(!on_link(&vec![], ip(8, 8, 8, 8)));
}

#[test]
fn first_hops() {
    assert!(matches!(first_hop(true, Some([1, 2, 3, 4, 5, 6])), FirstHop::ArpTarget));
    assert!(matches!(first_hop(false, Some([1, 2, 3, 4, 5, 6])), FirstHop::Gateway([1, 2, 3, 4, 5, 6])));
    assert!(matches!(first_hop(false, Some([0; 6])), FirstHop::ResolveGateway));
    assert!(matches!(first_hop(false, None), FirstHop::ResolveGateway));
}

#[test]
fn gateways() {
    assert_eq!(gateway_or_error(Some(ip(10, 0, 0, 1)), "eth0").unwrap(), ip(10, 0, 0, 1));
    match gateway_or_error(None, "eth0") {
        Err(e @ NtkError::GatewayResolutionFailure(_)) => assert_eq!(
            e.message(),
            "Unable to find the default gateway on the interface in order to send packets: no gateway found for interface eth0"
        ),
        other => panic!("unexpected {:?}", other),
    }
}
