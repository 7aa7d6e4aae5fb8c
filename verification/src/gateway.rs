//! The reports of the `gateway` subcommand: the default gateways and the
//! default route.
use vstd::prelude::*;
use crate::ipv4::{Ipv4, ipv4_text, push_ipv4};
use crate::text::{push_char, push_str};

verus! {

/// The addresses written as a list, `[a, b, c]` (as `{:?}` writes a list of
/// addresses).
pub open spec fn address_list_text(ips: Seq<Ipv4>) -> Seq<char> {
    seq!['['] + joined_addresses(ips) + seq![']']
}

/// The addresses joined by `, `.
pub open spec fn joined_addresses(ips: Seq<Ipv4>) -> Seq<char>
    decreases ips.len(),
{
    if ips.len() == 0 {
        seq![]
    } else if ips.len() == 1 {
        ipv4_text(ips[0])
    } else {
        joined_addresses(ips.drop_last()) + ", "@ + ipv4_text(ips.last())
    }
}

/// The default gateways as the `gateway` subcommand shows them: the first one
/// alone when `first_match` is set, else the whole list.
pub open spec fn gateways_text(ips: Seq<Ipv4>, first_match: bool) -> Seq<char> {
    if first_match {
        ipv4_text(ips[0])
    } else {
        address_list_text(ips)
    }
}

/// Appends the addresses joined by `, `.
fn push_joined(s: &mut String, ips: &Vec<Ipv4>)
    ensures
        final(s)@ == old(s)@ + joined_addresses(ips@),
{
    let mut i: usize = 0;
    while i < ips.len()
        invariant
            i <= ips@.len(),
            s@ == old(s)@ + joined_addresses(ips@.subrange(0, i as int)),
        decreases ips@.len() - i,
    {
        let ghost before = s@;
        if i > 0 {
            push_str(s, ", ");
        }
        push_ipv4(s, ips[i]);
        proof {
            let sub = ips@.subrange(0, i + 1);
            assert(sub.drop_last() =~= ips@.subrange(0, i as int));
            assert(sub.last() == ips@[i as int]);
            if i == 0 {
                assert(sub.len() == 1);
                assert(s@ =~= old(s)@ + joined_addresses(sub));
            } else {
                assert(s@ =~= old(s)@ + joined_addresses(sub));
            }
        }
        i = i + 1;
    }
    proof {
        assert(ips@.subrange(0, ips@.len() as int) =~= ips@);
    }
}

/// Builds what the `gateway` subcommand shows of the default gateways (see
/// `gateways_text`). Showing the first one needs one to exist.
pub fn gateways_report(ips: &Vec<Ipv4>, first_match: bool) -> (s: String)
    requires
        first_match ==> ips@.len() > 0,
    ensures
        s@ == gateways_text(ips@, first_match),
{
    let mut s = String::new();
    if first_match {
        push_ipv4(&mut s, ips[0]);
    } else {
        push_char(&mut s, '[');
        push_joined(&mut s, ips);
        push_char(&mut s, ']');
    }
    proof {
        assert(s@ =~= gateways_text(ips@, first_match));
    }
    s
}

/// The default route: `'INTERFACE' routes to: 'GATEWAYS'`, the gateways shown
/// as in `gateways_text`.
pub open spec fn route_text(interface_name: Seq<char>, ips: Seq<Ipv4>, first_match: bool) -> Seq<char> {
    "'"@ + interface_name + "' routes to: '"@ + gateways_text(ips, first_match) + "'"@
}

/// Builds the default route message (see `route_text`).
pub fn route_report(interface_name: &str, ips: &Vec<Ipv4>, first_match: bool) -> (s: String)
    requires
        first_match ==> ips@.len() > 0,
    ensures
        s@ == route_text(interface_name@, ips@, first_match),
{
    let mut s = String::new();
    push_str(&mut s, "'");
    push_str(&mut s, interface_name);
    push_str(&mut s, "' routes to: '");
    let g = gateways_report(ips, first_match);
    push_str(&mut s, g.as_str());
    push_str(&mut s, "'");
    proof {
        assert(s@ =~= route_text(interface_name@, ips@, first_match));
    }
    s
}

} // verus!
