use ntk::ipv4::{
    assert_is_valid_ipv4, first_ipv4, ipv4_from_u32, ipv4_to_string, ipv4_to_u32, is_valid_ipv4,
    net_contains, network_range, parse_ipv4, require_ipv4, str_to_ip, IpAddress, Ipv4,
};
use ntk::error::NtkError;

fn ip(a: u8, b: u8, c: u8, d: u8) -> Ipv4 {
    Ipv4 { a, b, c, d }
}

#[test]
fn valid_addresses_are_accepted() {
    assert!(is_valid_ipv4("192.168.1.1"));
    assert!(is_valid_ipv4("0.0.0.0"));
    assert!(is_valid_ipv4("255.255.255.255"));
}

#[test]
fn invalid_addresses_are_refused() {
    assert!(!is_valid_ipv4("256.1.1.1"));
    assert!(!is_valid_ipv4("1.2.3"));
    assert!(!is_valid_ipv4("1.2.3.4.5"));
    assert!(!is_valid_ipv4("01.2.3.4"));
    assert!(!is_valid_ipv4("1.2.3.4 "));
    assert!(!is_valid_ipv4(""));
    assert!(!is_valid_ipv4("a.b.c.d"));
    assert!(!is_valid_ipv4("1..2.3"));
}

#[test]
fn parse_gives_the_octets() {
    assert_eq!(parse_ipv4("10.0.0.1"), Some(ip(10, 0, 0, 1)));
    assert_eq!(parse_ipv4("10.0.0"), None);
    assert_eq!(str_to_ip("8.8.8.8"), ip(8, 8, 8, 8));
    assert_is_valid_ipv4("1.1.1.1");
}

#[test]
fn text_round_trip() {
    let a = ip(192, 168, 0, 255);
    let s = ipv4_to_string(a);
    assert_eq!(s, "192.168.0.255");
    assert_eq!(parse_ipv4(&s), Some(a));
    for n in [0u32, 1, 167772161, 4294967295, 3232235777] {
        let x = ipv4_from_u32(n);
        assert_eq!(parse_ipv4(&ipv4_to_string(x)), Some(x));
    }
}

#[test]
fn numbers_of_addresses() {
    assert_eq!(ipv4_to_u32(ip(10, 0, 0, 1)), 167772161);
    assert_eq!(ipv4_from_u32(167772161), ip(10, 0, 0, 1));
    assert_eq!(ipv4_from_u32(4294967295), ip(255, 255, 255, 255));
}

#[test]
fn network_membership() {
    assert!(net_contains(ip(10, 0, 0, 0), 24, ip(10, 0, 0, 200)));
    assert!(!net_contains(ip(10, 0, 0, 0), 24, ip(10, 0, 1, 1)));
    assert!(net_contains(ip(1, 2, 3, 4), 0, ip(200, 1, 1, 1)));
    assert!(net_contains(ip(1, 2, 3, 4), 32, ip(1, 2, 3, 4)));
    assert!(!net_contains(ip(1, 2, 3, 4), 32, ip(1, 2, 3, 5)));
}

#[test]
fn network_range_is_the_network() {
    assert_eq!(network_range(ip(192, 168, 1, 77), 24), (3232235776, 3232236031));
    assert_eq!(network_range(ip(10, 1, 2, 3), 32), (167838211, 167838211));
    assert_eq!(network_range(ip(10, 1, 2, 3), 0), (0, 4294967295));
    let base = ip(172, 16, 5, 9);
    let (lo, hi) = network_range(base, 22);
    for n in (lo - 5)..=(hi + 5) {
        let inside = n >= lo && n <= hi;
        assert_eq!(net_contains(base, 22, ipv4_from_u32(n)), inside);
    }
}

#[test]
fn first_version_4_address() {
    let addrs = vec![IpAddress::V6(1), IpAddress::V4(ip(1, 2, 3, 4)), IpAddress::V4(ip(5, 6, 7, 8))];
    assert_eq!(first_ipv4(&addrs), Some(ip(1, 2, 3, 4)));
    assert_eq!(first_ipv4(&vec![IpAddress::V6(7)]), None);
    assert_eq!(first_ipv4(&vec![]), None);
}

#[test]
fn version_6_is_refused() {
    assert!(matches!(require_ipv4(IpAddress::V6(0)), Err(NtkError::Ipv6FoundError)));
    assert!(matches!(require_ipv4(IpAddress::V4(ip(9, 9, 9, 9))), Ok(x) if x == ip(9, 9, 9, 9)));
}
