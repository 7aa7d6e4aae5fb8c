//! Reading the kernel's ARP table (`/proc/net/arp` on Linux) for the MAC address
//! of the gateway, before any ARP request is sent.
use vstd::prelude::*;
use crate::ipv4::{Ipv4, parse_ipv4_chars, parse_ipv4_spec};
use crate::text::{
    chars_of, chars_eq, hex_number, lines, lines_chars, parse_hex, split_chars, split_on, words,
    split_whitespace_chars,
};

verus! {

/// `s` without any number of leading `0x` (as `trim_start_matches("0x")` gives it).
pub open spec fn trim_0x(s: Seq<char>) -> Seq<char>
    decreases s.len(),
{
    if s.len() >= 2 && s[0] == '0' && s[1] == 'x' {
        trim_0x(s.subrange(2, s.len() as int))
    } else {
        s
    }
}

/// The parts that read as a byte in base 16, in order; the others are left out.
pub open spec fn hex_bytes(parts: Seq<Seq<char>>) -> Seq<u8>
    decreases parts.len(),
{
    if parts.len() == 0 {
        seq![]
    } else {
        let prev = hex_bytes(parts.drop_last());
        match hex_number(parts.last()) {
            Some(v) => if v < 256 {
                prev.push(v as u8)
            } else {
                prev
            },
            None => prev,
        }
    }
}

/// What one line of the ARP table says: `None` when its address or flags do not
/// read (the search gives up), `Some(Some(mac))` for a complete entry of the
/// gateway on the interface with a six-part MAC address, `Some(None)` to go on
/// with the next line. Columns: address, HW type, flags, HW address, mask, device.
pub open spec fn arp_line_result(line: Seq<char>, gateway: Ipv4, iface: Seq<char>) -> Option<Option<Seq<u8>>> {
    let cols = words(line);
    if cols.len() < 6 {
        Some(None)
    } else {
        match parse_ipv4_spec(cols[0]) {
            None => None,
            Some(ip) => match hex_number(trim_0x(cols[2])) {
                None => None,
                Some(flags) => if flags > 0xffff_ffff {
                    None
                } else if ip == gateway && cols[5] == iface && (flags as u32) & 2 != 0 {
                    let mac = hex_bytes(split_on(cols[3], ':'));
                    if mac.len() == 6 {
                        Some(Some(mac))
                    } else {
                        Some(None)
                    }
                } else {
                    Some(None)
                },
            },
        }
    }
}

/// The outcome of searching the lines from `i` on.
pub open spec fn arp_table_search(ls: Seq<Seq<char>>, i: int, gateway: Ipv4, iface: Seq<char>) -> Option<Seq<u8>>
    decreases ls.len() - i,
{
    if i < 0 || i >= ls.len() {
        None
    } else {
        match arp_line_result(ls[i], gateway, iface) {
            None => None,
            Some(Some(mac)) => Some(mac),
            Some(None) => arp_table_search(ls, i + 1, gateway, iface),
        }
    }
}

/// The gateway's MAC address as the ARP table `content` gives it: the first
/// complete entry for `gateway` on `iface`, skipping the heading line.
pub open spec fn gateway_mac_from_arp_table(content: Seq<char>, gateway: Ipv4, iface: Seq<char>) -> Option<Seq<u8>> {
    arp_table_search(lines(content), 1, gateway, iface)
}

/// Strips leading `0x` pairs (see `trim_0x`).
fn trim_0x_chars(s: &Vec<char>) -> (r: Vec<char>)
    ensures
        r@ == trim_0x(s@),
{
    let mut start: usize = 0;
    assert(s@.subrange(0, s@.len() as int) =~= s@);
    while s.len() >= 2 && start <= s.len() - 2 && s[start] == '0' && s[start + 1] == 'x'
        invariant
            start <= s.len(),
            trim_0x(s@) == trim_0x(s@.subrange(start as int, s@.len() as int)),
        decreases s.len() - start,
    {
        proof {
            let t = s@.subrange(start as int, s@.len() as int);
            assert(t.subrange(2, t.len() as int) =~= s@.subrange(start + 2, s@.len() as int));
        }
        start = start + 2;
    }
    let mut r: Vec<char> = Vec::new();
    let mut i: usize = start;
    while i < s.len()
        invariant
            start <= i <= s.len(),
            r@ == s@.subrange(start as int, i as int),
        decreases s.len() - i,
    {
        r.push(s[i]);
        proof {
            assert(s@.subrange(start as int, i + 1) =~= s@.subrange(start as int, i as int).push(s@[i as int]));
        }
        i = i + 1;
    }
    r
}

/// The parts that read as a byte in base 16 (see `hex_bytes`).
fn hex_bytes_of(parts: &Vec<Vec<char>>) -> (r: Vec<u8>)
    ensures
        r@ == hex_bytes(parts@.map_values(|p: Vec<char>| p@)),
{
    let ghost views = parts@.map_values(|p: Vec<char>| p@);
    let mut r: Vec<u8> = Vec::new();
    let mut i: usize = 0;
    while i < parts.len()
        invariant
            views == parts@.map_values(|p: Vec<char>| p@),
            i <= parts@.len(),
            r@ == hex_bytes(views.subrange(0, i as int)),
        decreases parts@.len() - i,
    {
        proof {
            assert(views.subrange(0, i + 1).drop_last() =~= views.subrange(0, i as int));
            assert(views.subrange(0, i + 1).last() == parts@[i as int]@);
        }
        match parse_hex(&parts[i], 255) {
            Some(b) => {
                r.push(b as u8);
            },
            None => {},
        }
        i = i + 1;
    }
    proof {
        assert(views.subrange(0, parts@.len() as int) =~= views);
    }
    r
}

/// What one line says (see `arp_line_result`).
fn arp_line(line: &Vec<char>, gateway: Ipv4, iface: &Vec<char>) -> (r: Option<Option<[u8; 6]>>)
    ensures
        match arp_line_result(line@, gateway, iface@) {
            None => r is None,
            Some(None) => r == Some(None::<[u8; 6]>),
            Some(Some(mac)) => r matches Some(Some(m)) && m@ == mac,
        },
{
    let cols = split_whitespace_chars(line);
    if cols.len() < 6 {
        return Some(None);
    }
    let ip = match parse_ipv4_chars(&cols[0]) {
        Some(ip) => ip,
        None => {
            return None;
        },
    };
    let flags = match parse_hex(&trim_0x_chars(&cols[2]), 0xffff_ffff) {
        Some(f) => f as u32,
        None => {
            return None;
        },
    };
    if ip == gateway && chars_eq(&cols[5], iface) && flags & 2 != 0 {
        let parts = split_chars(&cols[3], ':');
        proof {
            assert(parts@.map_values(|p: Vec<char>| p@) =~= split_on(cols@[3]@, ':'));
        }
        let mac = hex_bytes_of(&parts);
        if mac.len() == 6 {
            let m = [mac[0], mac[1], mac[2], mac[3], mac[4], mac[5]];
            assert(m@ =~= mac@);
            Some(Some(m))
        } else {
            Some(None)
        }
    } else {
        Some(None)
    }
}

/// Looks up the gateway's MAC address in the ARP table text `content` (as
/// `/proc/net/arp` holds it): the first complete entry (flag `0x2`) for
/// `gateway_ip` on the interface `iface_name`, skipping the heading line. Gives
/// nothing when there is none, or as soon as a line's address or flags do not
/// read.
pub fn get_gateway_mac_from_arp_cache(content: &str, gateway_ip: Ipv4, iface_name: &str) -> (r:
    Option<[u8; 6]>)
    ensures
        match gateway_mac_from_arp_table(content@, gateway_ip, iface_name@) {
            Some(mac) => r matches Some(m) && m@ == mac,
            None => r is None,
        },
{
    let text = chars_of(content);
    let iface = chars_of(iface_name);
    let ls = lines_chars(&text);
    let mut i: usize = 1;
    while i < ls.len()
        invariant
            text@ == content@,
            iface@ == iface_name@,
            ls@.len() == lines(content@).len(),
            forall|k: int| 0 <= k < ls@.len() ==> #[trigger] ls@[k]@ == lines(content@)[k],
            1 <= i,
            arp_table_search(lines(content@), 1, gateway_ip, iface_name@) == arp_table_search(
                lines(content@),
                i as int,
                gateway_ip,
                iface_name@,
            ),
        decreases ls@.len() - i,
    {
        match arp_line(&ls[i], gateway_ip, &iface) {
            None => {
                return None;
            },
            Some(Some(m)) => {
                return Some(m);
            },
            Some(None) => {},
        }
        i = i + 1;
    }
    None
}

} // verus!
