//! The `discover` subcommand: which address of an interface the ARP sweep
//! starts from, which networks are swept, and the lines it prints.
use vstd::prelude::*;
use crate::error::NtkError;
use crate::ipv4::{IpAddress, Ipv4, ipv4_text, push_ipv4};
use crate::packets::{mac_text, push_mac};
use crate::text::{pad_right, push_padded, push_str};

verus! {

/// The first version 4 network of an interface, each network given as an
/// address and a prefix length.
pub open spec fn first_ipv4_network_spec(ips: Seq<(IpAddress, u8)>) -> Option<(Ipv4, u8)>
    decreases ips.len(),
{
    if ips.len() == 0 {
        None
    } else {
        match ips[0].0 {
            IpAddress::V4(ip) => Some((ip, ips[0].1)),
            IpAddress::V6(_) => first_ipv4_network_spec(ips.drop_first()),
        }
    }
}

/// What an ARP sweep of an interface starts from: its MAC address, then its
/// first IPv4 network. An interface without a MAC address is a
/// `SourceMacAddressFailure`, one without an IPv4 network an
/// `IfNameHasNoAssignedIps`, both naming the interface.
pub fn sweep_source(interface_name: &str, mac: Option<[u8; 6]>, ips: &Vec<(IpAddress, u8)>) -> (r: Result<
    ([u8; 6], Ipv4, u8),
    NtkError,
>)
    ensures
        mac is None ==> (r matches Err(NtkError::SourceMacAddressFailure(s)) && s@ == interface_name@),
        mac matches Some(m) ==> match first_ipv4_network_spec(ips@) {
            Some((ip, prefix)) => r matches Ok((rm, rip, rp)) && rm == m && rip == ip && rp == prefix,
            None => r matches Err(NtkError::IfNameHasNoAssignedIps(s)) && s@ == interface_name@,
        },
{
    let m = match mac {
        Some(m) => m,
        None => {
            let mut s = String::new();
            push_str(&mut s, interface_name);
            assert(s@ =~= interface_name@);
            return Err(NtkError::SourceMacAddressFailure(s));
        },
    };
    let mut i: usize = 0;
    assert(ips@.subrange(0, ips@.len() as int) =~= ips@);
    while i < ips.len()
        invariant
            mac == Some(m),
            i <= ips@.len(),
            first_ipv4_network_spec(ips@) == first_ipv4_network_spec(ips@.subrange(i as int, ips@.len() as int)),
        decreases ips@.len() - i,
    {
        proof {
            let rest = ips@.subrange(i as int, ips@.len() as int);
            assert(rest.drop_first() =~= ips@.subrange(i + 1, ips@.len() as int));
            assert(rest[0] == ips@[i as int]);
        }
        let (addr, prefix) = ips[i];
        match addr {
            IpAddress::V4(ip) => {
                return Ok((m, ip, prefix));
            },
            IpAddress::V6(_) => {},
        }
        i = i + 1;
    }
    let mut s = String::new();
    push_str(&mut s, interface_name);
    assert(s@ =~= interface_name@);
    Err(NtkError::IfNameHasNoAssignedIps(s))
}

/// An interface whose prefix length is 0, or 32 or more, is not swept; this is
/// the line that says so. Other prefix lengths are swept and have no such line.
pub open spec fn prefix_skip_text(interface_name: Seq<char>, prefix: u8) -> Option<Seq<char>> {
    if prefix == 0 {
        Some("Interface: '"@ + interface_name
            + "' ... Will not be discovered as network prefix is less than or equal to zero."@)
    } else if prefix >= 32 {
        Some("Interface: '"@ + interface_name
            + "' ... Will not be discovered as network prefix is greater than or equal to 32."@)
    } else {
        None
    }
}

/// Whether an interface is swept, and the line that says it is not (see
/// `prefix_skip_text`).
pub fn prefix_skip_message(interface_name: &str, prefix: u8) -> (r: Option<String>)
    ensures
        match prefix_skip_text(interface_name@, prefix) {
            Some(t) => r matches Some(s) && s@ == t,
            None => r is None,
        },
{
    if prefix == 0 || prefix >= 32 {
        let mut s = String::new();
        push_str(&mut s, "Interface: '");
        push_str(&mut s, interface_name);
        if prefix == 0 {
            push_str(&mut s, "' ... Will not be discovered as network prefix is less than or equal to zero.");
        } else {
            push_str(&mut s, "' ... Will not be discovered as network prefix is greater than or equal to 32.");
        }
        proof {
            assert(s@ =~= prefix_skip_text(interface_name@, prefix).unwrap());
        }
        Some(s)
    } else {
        None
    }
}

/// The line that starts the sweep of an interface.
pub open spec fn sweep_start_text(interface_name: Seq<char>) -> Seq<char> {
    "[*] Discovering devices on Interface: '"@ + interface_name + "' ..."@
}

/// Builds the line that starts the sweep of an interface.
pub fn sweep_start_line(interface_name: &str) -> (s: String)
    ensures
        s@ == sweep_start_text(interface_name@),
{
    let mut s = String::new();
    push_str(&mut s, "[*] Discovering devices on Interface: '");
    push_str(&mut s, interface_name);
    push_str(&mut s, "' ...");
    assert(s@ =~= sweep_start_text(interface_name@));
    s
}

/// The line that ends the sweep of an interface.
pub open spec fn sweep_done_text(interface_name: Seq<char>) -> Seq<char> {
    "[*] Discovery complete for "@ + interface_name
}

/// Builds the line that ends the sweep of an interface.
pub fn sweep_done_line(interface_name: &str) -> (s: String)
    ensures
        s@ == sweep_done_text(interface_name@),
{
    let mut s = String::new();
    push_str(&mut s, "[*] Discovery complete for ");
    push_str(&mut s, interface_name);
    assert(s@ =~= sweep_done_text(interface_name@));
    s
}

/// The heading of the table of neighbours: `IP` and `MAC` in columns of 16.
pub open spec fn neighbor_heading_text() -> Seq<char> {
    pad_right("IP"@, 16) + " "@ + pad_right("MAC"@, 16)
}

/// Builds the heading of the table of neighbours.
pub fn neighbor_heading() -> (s: String)
    ensures
        s@ == neighbor_heading_text(),
{
    let mut s = String::new();
    push_padded(&mut s, "IP", 16);
    push_str(&mut s, " ");
    push_padded(&mut s, "MAC", 16);
    assert(s@ =~= neighbor_heading_text());
    s
}

/// The row of a neighbour that answered: its address and its MAC address in
/// columns of 16.
pub open spec fn neighbor_row_text(ip: Ipv4, mac: [u8; 6]) -> Seq<char> {
    pad_right(ipv4_text(ip), 16) + " "@ + pad_right(mac_text(mac@), 16)
}

/// Builds the row of a neighbour that answered.
pub fn neighbor_row(ip: Ipv4, mac: [u8; 6]) -> (s: String)
    ensures
        s@ == neighbor_row_text(ip, mac),
{
    let a = crate::ipv4::ipv4_to_string(ip);
    let mut m = String::new();
    push_mac(&mut m, &mac);
    let mut s = String::new();
    push_padded(&mut s, a.as_str(), 16);
    push_str(&mut s, " ");
    push_padded(&mut s, m.as_str(), 16);
    assert(s@ =~= neighbor_row_text(ip, mac));
    s
}

} // verus!
