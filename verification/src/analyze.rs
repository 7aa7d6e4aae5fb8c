//! The `analyze` subcommand: the origin interface and network it reports, and
//! how it names the target.
use vstd::prelude::*;
use crate::ipv4::{Ipv4, ipv4_text, push_ipv4};
use crate::packets::{mac_text, push_mac};
use crate::text::{decimal, push_decimal, push_str};

verus! {

/// The prefix length of the first network of the interface whose address is
/// `ip`, each network given as an address and a prefix length.
pub open spec fn source_prefix_spec(nets: Seq<(Ipv4, u8)>, ip: Ipv4) -> Option<u8>
    decreases nets.len(),
{
    if nets.len() == 0 {
        None
    } else if nets[0].0 == ip {
        Some(nets[0].1)
    } else {
        source_prefix_spec(nets.drop_first(), ip)
    }
}

/// Finds the network of the interface that the source address belongs to
/// (see `source_prefix_spec`).
pub fn source_prefix(nets: &Vec<(Ipv4, u8)>, ip: Ipv4) -> (r: Option<u8>)
    ensures
        r == source_prefix_spec(nets@, ip),
{
    let mut i: usize = 0;
    assert(nets@.subrange(0, nets@.len() as int) =~= nets@);
    while i < nets.len()
        invariant
            i <= nets@.len(),
            source_prefix_spec(nets@, ip) == source_prefix_spec(nets@.subrange(i as int, nets@.len() as int), ip),
        decreases nets@.len() - i,
    {
        proof {
            let rest = nets@.subrange(i as int, nets@.len() as int);
            assert(rest.drop_first() =~= nets@.subrange(i + 1, nets@.len() as int));
            assert(rest[0] == nets@[i as int]);
        }
        let (addr, prefix) = nets[i];
        if addr == ip {
            return Some(prefix);
        }
        i = i + 1;
    }
    None
}

/// The line that names the origin interface: its name, its MAC address (or
/// `Unknown`), the source address and the prefix length of its network.
pub open spec fn origin_text(name: Seq<char>, mac: Option<[u8; 6]>, ip: Ipv4, prefix: u8) -> Seq<char> {
    "Origin interface is '"@ + name + "' with MAC '"@ + match mac {
        Some(m) => mac_text(m@),
        None => "Unknown"@,
    } + "' and IP '"@ + ipv4_text(ip) + "' with prefix '/"@ + decimal(prefix as nat) + "'"@
}

/// Builds the line that names the origin interface (see `origin_text`).
pub fn origin_line(name: &str, mac: Option<[u8; 6]>, ip: Ipv4, prefix: u8) -> (s: String)
    ensures
        s@ == origin_text(name@, mac, ip, prefix),
{
    let mut s = String::new();
    push_str(&mut s, "Origin interface is '");
    push_str(&mut s, name);
    push_str(&mut s, "' with MAC '");
    match mac {
        Some(m) => push_mac(&mut s, &m),
        None => push_str(&mut s, "Unknown"),
    }
    push_str(&mut s, "' and IP '");
    push_ipv4(&mut s, ip);
    push_str(&mut s, "' with prefix '/");
    push_decimal(&mut s, prefix as u64);
    push_str(&mut s, "'");
    assert(s@ =~= origin_text(name@, mac, ip, prefix));
    s
}

/// The line on the state of the origin interface.
pub open spec fn origin_state_text(is_up: bool) -> Seq<char> {
    if is_up {
        "Origin Interface is 'UP'"@
    } else {
        "Origin Interface is 'DOWN' - ERROR: Subsequent analysis will likely fail!"@
    }
}

/// Builds the line on the state of the origin interface.
pub fn origin_state_line(is_up: bool) -> (s: String)
    ensures
        s@ == origin_state_text(is_up),
{
    let mut s = String::new();
    if is_up {
        push_str(&mut s, "Origin Interface is 'UP'");
    } else {
        push_str(&mut s, "Origin Interface is 'DOWN' - ERROR: Subsequent analysis will likely fail!");
    }
    assert(s@ =~= origin_state_text(is_up));
    s
}

/// The line that names the target at layer 3: with the prefix length of the
/// origin network when the target is on it.
pub open spec fn target_text(ip: Ipv4, prefix: u8, same_network: bool) -> Seq<char> {
    "Target IP is: '"@ + ipv4_text(ip) + if same_network {
        "/"@ + decimal(prefix as nat)
    } else {
        seq![]
    } + "'"@
}

/// Builds the line that names the target at layer 3 (see `target_text`).
pub fn target_line(ip: Ipv4, prefix: u8, same_network: bool) -> (s: String)
    ensures
        s@ == target_text(ip, prefix, same_network),
{
    let mut s = String::new();
    push_str(&mut s, "Target IP is: '");
    push_ipv4(&mut s, ip);
    if same_network {
        push_str(&mut s, "/");
        push_decimal(&mut s, prefix as u64);
    }
    push_str(&mut s, "'");
    assert(s@ =~= target_text(ip, prefix, same_network));
    s
}

} // verus!
