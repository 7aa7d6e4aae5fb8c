use ntk::analyze::{origin_line, origin_state_line, source_prefix, target_line};
use ntk::arp_cache::get_gateway_mac_from_arp_cache;
use ntk::banner::{banner_line, banner_ports, banner_probe, banner_text};
use ntk::discover::{
    neighbor_heading, neighbor_row, prefix_skip_message, sweep_done_line, sweep_source,
    sweep_start_line,
};
use ntk::error::NtkError;
use ntk::gateway::{gateways_report, route_report};
use ntk::ipv4::{IpAddress, Ipv4};
use ntk::listing::{interface_row, listed, name_order, names_in_order};
use ntk::mac::{assert_valid_mac_oci, mac_vendor_urls, not_found_message, parse_to_mac_oci, vendor_report, VendorReport};

fn ip(a: u8, b: u8, c: u8, d: u8) -> Ipv4 {
    Ipv4 { a, b, c, d }
}

fn chars(s: &str) -> Vec<char> {
    s.chars().collect()
}

#[test]
fn error_messages() {
    assert_eq!(NtkError::DnsLookup(String::from("boom")).message(), "DNS lookup of IP address failed: boom");
    assert_eq!(
        NtkError::SourceMacAddressFailure(String::from("eth0")).message(),
        "Was unable to find a MAC address for interface with name: 'eth0'"
    );
    assert_eq!(
        NtkError::FetchResponseFailure { status: String::from("404"), reason: Some(String::from("Not Found")) }.message(),
        "Unsuccessful response code from remote server: '404', reason: 'Not Found'"
    );
    assert_eq!(
        NtkError::FetchResponseFailure { status: String::from("599"), reason: None }.message(),
        "Unsuccessful response code from remote server: '599', reason: 'Unknown'"
    );
    assert_eq!(
        NtkError::Ipv6FoundError.message(),
        "Found an IPv6 while trying to process IPv6 data, which is unexpected an unhandled by ntk."
    );
    assert_eq!(NtkError::WrongBinaryInUse(String::from("use the pcap build")).message(), "use the pcap build");
    assert_eq!(NtkError::TaskJoinError.message(), "Failed to gracefully join (shutdown) async thread.");
    assert_eq!(
        NtkError::IfNameNotFound(String::from("wlan9")).message(),
        "No interface exists with the name: wlan9"
    );
    assert_eq!(NtkError::UrlParseFailure(String::from("empty host")).message(), "Failed to parse URL: empty host");
}

#[test]
fn gateway_reports() {
    let gws = vec![ip(10, 0, 0, 1), ip(10, 0, 0, 2)];
    assert_eq!(gateways_report(&gws, true), "10.0.0.1");
    assert_eq!(gateways_report(&gws, false), "[10.0.0.1, 10.0.0.2]");
    assert_eq!(gateways_report(&vec![], false), "[]");
    assert_eq!(route_report("eth0", &gws, true), "'eth0' routes to: '10.0.0.1'");
    assert_eq!(route_report("eth0", &gws, false), "'eth0' routes to: '[10.0.0.1, 10.0.0.2]'");
}

#[test]
fn banners() {
    assert_eq!(banner_ports(), vec![21, 22, 23, 25, 80, 443, 8080]);
    assert_eq!(banner_probe(80), Some(b"HEAD / HTTP/1.0\r\n\r\n".to_vec()));
    assert_eq!(banner_probe(8080), Some(b"HEAD / HTTP/1.0\r\n\r\n".to_vec()));
    assert_eq!(banner_probe(22), None);
    assert_eq!(banner_text(b"  SSH-2.0-OpenSSH_9.6\r\n"), "SSH-2.0-OpenSSH_9.6");
    assert_eq!(banner_text(b"ok\xff"), "ok\u{fffd}");
    assert_eq!(banner_line(21, None), "21   : No banner found.");
    assert_eq!(banner_line(8080, Some("hello")), "8080 : hello");
    assert_eq!(banner_line(65535, Some("x")), "65535: x");
}

#[test]
fn discovery_lines() {
    let mac = [0x00, 0x1a, 0x2b, 0x3c, 0x4d, 0x5e];
    let ips = vec![(IpAddress::V6(1), 64u8), (IpAddress::V4(ip(10, 0, 0, 5)), 24u8)];
    assert_eq!(sweep_source("eth0", Some(mac), &ips).unwrap(), (mac, ip(10, 0, 0, 5), 24));
    match sweep_source("eth0", None, &ips) {
        Err(e @ NtkError::SourceMacAddressFailure(_)) => {
            assert_eq!(e.message(), "Was unable to find a MAC address for interface with name: 'eth0'")
        }
        other => panic!("unexpected {:?}", other),
    }
    assert!(matches!(
        sweep_source("eth0", Some(mac), &vec![(IpAddress::V6(1), 64u8)]),
        Err(NtkError::IfNameHasNoAssignedIps(ref s)) if s == "eth0"
    ));
    assert_eq!(
        prefix_skip_message("tun0", 0),
        Some(String::from("Interface: 'tun0' ... Will not be discovered as network prefix is less than or equal to zero."))
    );
    assert_eq!(
        prefix_skip_message("tun0", 32),
        Some(String::from("Interface: 'tun0' ... Will not be discovered as network prefix is greater than or equal to 32."))
    );
    assert_eq!(prefix_skip_message("eth0", 24), None);
    assert_eq!(sweep_start_line("eth0"), "[*] Discovering devices on Interface: 'eth0' ...");
    assert_eq!(sweep_done_line("eth0"), "[*] Discovery complete for eth0");
    assert_eq!(neighbor_heading(), format!("{:<16} {:<16}", "IP", "MAC"));
    assert_eq!(neighbor_row(ip(10, 0, 0, 1), mac), format!("{:<16} {:<16}", "10.0.0.1", "00:1a:2b:3c:4d:5e"));
}

#[test]
fn interfaces_are_listed_by_name() {
    let names = vec![chars("wlan0"), chars("eth1"), chars("lo"), chars("eth0"), chars("eth1")];
    let order = name_order(&names);
    assert_eq!(order, vec![3, 1, 4, 2, 0]);
    assert_eq!(name_order(&vec![]), Vec::<usize>::new());
    assert!(names_in_order(&chars("eth"), &chars("eth0")));
    assert!(!names_in_order(&chars("eth0"), &chars("eth")));
    assert!(names_in_order(&chars("Z"), &chars("a")));
    assert!(names_in_order(&chars(""), &chars("")));
}

#[test]
fn interface_rows() {
    assert!(listed(true, false, false));
    assert!(!listed(true, true, false));
    assert!(listed(false, true, false));
    assert!(!listed(false, false, true));
    let nets = vec![(ip(192, 168, 1, 20), 24u8)];
    assert_eq!(
        interface_row("eth0", true, Some([0xaa, 0xbb, 0xcc, 0xdd, 0xee, 0xff]), &nets),
        format!("{:<10} {:<5} {:<16} ", "eth0", "UP", "aa:bb:cc:dd:ee:ff") + &format!(" {:<18} ", "192.168.1.20/24")
    );
    assert_eq!(interface_row("lo", false, None, &vec![]), format!("{:<10} {:<5} {:<16} ", "lo", "DOWN", "Unknown"));
}

#[test]
fn analyze_lines() {
    let nets = vec![(ip(10, 0, 0, 9), 8u8), (ip(192, 168, 1, 20), 24u8)];
    assert_eq!(source_prefix(&nets, ip(192, 168, 1, 20)), Some(24));
    assert_eq!(source_prefix(&nets, ip(1, 1, 1, 1)), None);
    assert_eq!(
        origin_line("eth0", Some([1, 2, 3, 4, 5, 6]), ip(192, 168, 1, 20), 24),
        "Origin interface is 'eth0' with MAC '01:02:03:04:05:06' and IP '192.168.1.20' with prefix '/24'"
    );
    assert_eq!(
        origin_line("eth0", None, ip(192, 168, 1, 20), 24),
        "Origin interface is 'eth0' with MAC 'Unknown' and IP '192.168.1.20' with prefix '/24'"
    );
    assert_eq!(origin_state_line(true), "Origin Interface is 'UP'");
    assert_eq!(origin_state_line(false), "Origin Interface is 'DOWN' - ERROR: Subsequent analysis will likely fail!");
    assert_eq!(target_line(ip(192, 168, 1, 1), 24, true), "Target IP is: '192.168.1.1/24'");
    assert_eq!(target_line(ip(8, 8, 8, 8), 24, false), "Target IP is: '8.8.8.8'");
}

#[test]
fn mac_prefixes() {
    assert_eq!(parse_to_mac_oci("FF:FF:FF"), Some(vec![255, 255, 255]));
    assert_eq!(parse_to_mac_oci("00:1a:2B:3c:4d:5e"), Some(vec![0, 0x1a, 0x2b]));
    assert_eq!(parse_to_mac_oci("e4:bf:fa:aa:aa:aa"), Some(vec![0xe4, 0xbf, 0xfa]));
    assert_eq!(parse_to_mac_oci("e4:bf:fa:aa:aa:zz"), None);
    assert_eq!(parse_to_mac_oci("+F:AA:BB"), Some(vec![15, 170, 187]));
    assert_eq!(parse_to_mac_oci("FF:FF"), None);
    assert_eq!(parse_to_mac_oci("1:2:3:4:5:6:7"), None);
    assert_eq!(parse_to_mac_oci("FFF:FF:FF"), None);
    assert_eq!(parse_to_mac_oci("GG:FF:FF"), None);
    assert_eq!(parse_to_mac_oci("FF-FF-FF"), None);
    assert_valid_mac_oci("AA:BB:CC");
}

#[test]
fn vendor_lookup() {
    let (u1, u2) = mac_vendor_urls("FF:FF:FF");
    assert_eq!(u1, "https://api.macvendors.com/FF:FF:FF");
    assert_eq!(u2, "https://api.maclookup.app/v2/macs/FF:FF:FF");
    assert!(matches!(vendor_report(Some("Acme"), "x"), VendorReport::Stdout(ref s) if s == "Acme"));
    assert!(matches!(vendor_report(Some(""), "x"), VendorReport::Stdout(ref s) if s == "Was unable to find a vendor for 'x'"));
    assert!(matches!(vendor_report(None, "x"), VendorReport::Stderr(_)));
    assert_eq!(not_found_message("AB:CD:EF"), "Was unable to find a vendor for 'AB:CD:EF'");
}

#[test]
fn gateway_mac_from_the_arp_table() {
    let table = "IP address       HW type     Flags       HW address            Mask     Device\n\
                 10.0.0.7         0x1         0x2         11:22:33:44:55:66     *        eth0\n\
                 10.0.0.1         0x1         0x0         aa:aa:aa:aa:aa:aa     *        eth0\n\
                 10.0.0.1         0x1         0x2         de:ad:be:ef:00:01     *        wlan0\n\
                 10.0.0.1         0x1         0x2         de:ad:be:ef:00:02     *        eth0\n";
    assert_eq!(
        get_gateway_mac_from_arp_cache(table, ip(10, 0, 0, 1), "eth0"),
        Some([0xde, 0xad, 0xbe, 0xef, 0x00, 0x02])
    );
    assert_eq!(
        get_gateway_mac_from_arp_cache(table, ip(10, 0, 0, 1), "wlan0"),
        Some([0xde, 0xad, 0xbe, 0xef, 0x00, 0x01])
    );
    assert_eq!(get_gateway_mac_from_arp_cache(table, ip(10, 0, 0, 9), "eth0"), None);
    let broken = "head\nnot-an-ip 0x1 0x2 aa:aa:aa:aa:aa:aa * eth0\n10.0.0.1 0x1 0x2 aa:aa:aa:aa:aa:aa * eth0\n";
    assert_eq!(get_gateway_mac_from_arp_cache(broken, ip(10, 0, 0, 1), "eth0"), None);
    let short = "head\n10.0.0.1 0x1 0x2\n10.0.0.1 0x1 0x2 01:02:03:04:05:06 * eth0\n";
    assert_eq!(get_gateway_mac_from_arp_cache(short, ip(10, 0, 0, 1), "eth0"), Some([1, 2, 3, 4, 5, 6]));
}

#[test]
fn every_error_has_its_message() {
    let s = || String::from("x");
    let cases: Vec<(NtkError, &str)> = vec![
        (NtkError::DnsLookup(s()), "DNS lookup of IP address failed: x"),
        (NtkError::DnsResolve(s()), "DNS resolution of hostname to IP failed: x"),
        (NtkError::NetDevGatewayFailure(s()), "Failed to find the default gateway: x"),
        (NtkError::NetDevDefaultInterfaceFailure(s()), "Failed to find the default interface: x"),
        (NtkError::IfNameNotFound(s()), "No interface exists with the name: x"),
        (NtkError::IfNameHasNoAssignedIps(s()), "Interface name does not have any IPv4 addresses assigned to it: x"),
        (NtkError::SourceMacAddressFailure(s()), "Was unable to find a MAC address for interface with name: 'x'"),
        (NtkError::DatalinkOpenFailure(s()), "Failed to open datalink channels for transmit and receive: x"),
        (
            NtkError::DatalinkUnsupportedChannel,
            "Unexpected datalink channel provided while trying to open transmit and receive channels.",
        ),
        (NtkError::PacketBufferTooSmall, "Buffer provided was too small to construct ethernet packet."),
        (NtkError::PacketSendFailure(s()), "Failed to send packet through the transmit channel: x"),
        (NtkError::PacketTtlSetFailure(s()), "Failed to set the TTL (time to live) of the packet: x"),
        (
            NtkError::FetchFileCreationError(s()),
            "Failed to create a file on the operating system to store the fetch data in: x",
        ),
        (NtkError::FetchFileWriteError(s()), "Failed to write the fetch data to the provided file path: x"),
        (NtkError::FetchFailedToGetJson(s()), "Failed to get or deserialize the JSON body from the response: x"),
        (NtkError::FetchFailedToGetTextBody(s()), "Failed to get the text body from the response: x"),
        (
            NtkError::ReqwestClientBuildFailure(s()),
            "Failed to build HTTP (reqwest) client required to send request: x",
        ),
        (NtkError::ReqwestSendFailure(s()), "Failed to send HTTP request using (reqwest) client: x"),
        (NtkError::HttpGetChunkFailure(s()), "Failed to get/collect download chunk: x"),
        (NtkError::HttpHeaderToStringFailure(s()), "Failed to convert HTTP header to a string: x"),
        (
            NtkError::SemaphoreAquirePermitFailure(s()),
            "A thread failure to acquire a lock required to perform work: x",
        ),
        (
            NtkError::GatewayResolutionFailure(s()),
            "Unable to find the default gateway on the interface in order to send packets: x",
        ),
        (
            NtkError::GatewayMacUnresolved,
            "The default gateway was detected but its MAC Address is 'the zero address' and is unusable as a destination.",
        ),
        (NtkError::ArpResolutionTimeout(s()), "Timeout waiting for an ARP reply from a remote IP: x"),
        (NtkError::IcmpReceive(s()), "Failed to receive ICMP ping packet: x"),
        (NtkError::IpIfAssociationError(s()), "No interface exists with the assigned source IP: x"),
        (NtkError::LibPacketCaptureFailure(s()), "Failure to receive or setting up to receive packets: x"),
        (
            NtkError::UnexpectedHandle,
            "A function expected a thread handle or an async tokio handle but rx the wrong one.",
        ),
        (NtkError::JsonParseFailure(s()), "Failed to parse JSON: x"),
    ];
    for (e, m) in cases {
        assert_eq!(e.message(), m);
    }
}

#[test]
fn oui_text_reads_back() {
    for b in [[0u8, 0, 0], [0xe4, 0xbf, 0xfa], [0x0a, 0xf0, 0xff], [9, 10, 15]] {
        let lower = format!("{:02x}:{:02x}:{:02x}", b[0], b[1], b[2]);
        let upper = format!("{:02X}:{:02X}:{:02X}", b[0], b[1], b[2]);
        assert_eq!(parse_to_mac_oci(&lower), Some(b.to_vec()));
        assert_eq!(parse_to_mac_oci(&upper), Some(b.to_vec()));
    }
}
