//! The `interface` subcommand: interfaces listed in the order of their names,
//! filtered by state, one row each.
use vstd::prelude::*;
use crate::ipv4::{Ipv4, ipv4_text, push_ipv4};
use crate::packets::{mac_text, push_mac};
use crate::text::{decimal, pad_right, push_decimal, push_padded, push_str, chars_of};

verus! {

/// `a` comes before `b`, or equals it, in the order of their characters (the
/// order in which `str` compares names: byte by byte in UTF-8, which orders
/// characters by their code points).
pub open spec fn name_le(a: Seq<char>, b: Seq<char>) -> bool
    decreases a.len(),
{
    if a.len() == 0 {
        true
    } else if b.len() == 0 {
        false
    } else if a[0] != b[0] {
        (a[0] as u32) < (b[0] as u32)
    } else {
        name_le(a.drop_first(), b.drop_first())
    }
}

proof fn lemma_name_le_reflexive(a: Seq<char>)
    ensures
        name_le(a, a),
    decreases a.len(),
{
    if a.len() > 0 {
        lemma_name_le_reflexive(a.drop_first());
    }
}

proof fn lemma_name_le_total(a: Seq<char>, b: Seq<char>)
    ensures
        name_le(a, b) || name_le(b, a),
    decreases a.len(),
{
    if a.len() > 0 && b.len() > 0 {
        if a[0] == b[0] {
            lemma_name_le_total(a.drop_first(), b.drop_first());
        } else {
            vstd::utf8::char_u32_cast(a[0], a[0] as u32);
            vstd::utf8::char_u32_cast(b[0], b[0] as u32);
        }
    }
}

proof fn lemma_name_le_transitive(a: Seq<char>, b: Seq<char>, c: Seq<char>)
    requires
        name_le(a, b),
        name_le(b, c),
    ensures
        name_le(a, c),
    decreases a.len(),
{
    if a.len() > 0 && b.len() > 0 && c.len() > 0 && a[0] == b[0] && b[0] == c[0] {
        lemma_name_le_transitive(a.drop_first(), b.drop_first(), c.drop_first());
    }
}

/// Whether `a` comes before `b` or equals it (see `name_le`).
pub fn names_in_order(a: &Vec<char>, b: &Vec<char>) -> (r: bool)
    ensures
        r == name_le(a@, b@),
{
    let mut i: usize = 0;
    assert(a@.subrange(0, a@.len() as int) =~= a@);
    assert(b@.subrange(0, b@.len() as int) =~= b@);
    while i < a.len()
        invariant
            i <= a@.len(),
            i <= b@.len(),
            a@.subrange(0, i as int) == b@.subrange(0, i as int),
            name_le(a@, b@) == name_le(a@.subrange(i as int, a@.len() as int), b@.subrange(i as int, b@.len() as int)),
        decreases a@.len() - i,
    {
        if i == b.len() {
            return false;
        }
        if a[i] != b[i] {
            proof {
                let sa = a@.subrange(i as int, a@.len() as int);
                let sb = b@.subrange(i as int, b@.len() as int);
                assert(sa[0] == a@[i as int] && sb[0] == b@[i as int]);
            }
            return (a[i] as u32) < (b[i] as u32);
        }
        proof {
            let sa = a@.subrange(i as int, a@.len() as int);
            let sb = b@.subrange(i as int, b@.len() as int);
            assert(sa.drop_first() =~= a@.subrange(i + 1, a@.len() as int));
            assert(sb.drop_first() =~= b@.subrange(i + 1, b@.len() as int));
            assert(a@.subrange(0, i + 1) =~= a@.subrange(0, i as int).push(a@[i as int]));
            assert(b@.subrange(0, i + 1) =~= b@.subrange(0, i as int).push(b@[i as int]));
        }
        i = i + 1;
    }
    true
}

/// `order` lists each of the `n` interfaces once, by position.
pub open spec fn is_permutation_of(order: Seq<usize>, n: nat) -> bool {
    &&& order.len() == n
    &&& forall|i: int| 0 <= i < order.len() ==> #[trigger] order[i] < n
    &&& forall|i: int, j: int| 0 <= i < j < order.len() ==> order[i] != order[j]
}

/// `order` lists the names in order, names that are equal keeping the order in
/// which they came (a stable sort by name).
pub open spec fn is_sorted_by_name(order: Seq<usize>, names: Seq<Seq<char>>) -> bool {
    &&& forall|i: int, j: int|
        0 <= i < j < order.len() ==> name_le(#[trigger] names[order[i] as int], #[trigger] names[order[j] as int])
    &&& forall|i: int, j: int|
        0 <= i < j < order.len() && names[order[i] as int] == names[order[j] as int] ==> #[trigger] order[i]
            < #[trigger] order[j]
}

/// The names as characters.
pub open spec fn name_views(names: Seq<Vec<char>>) -> Seq<Seq<char>> {
    names.map_values(|n: Vec<char>| n@)
}

/// The order in which the interfaces are listed: by name, as a stable sort
/// orders them; the result gives the positions of the interfaces in `names`.
pub fn name_order(names: &Vec<Vec<char>>) -> (order: Vec<usize>)
    ensures
        is_permutation_of(order@, names@.len()),
        is_sorted_by_name(order@, name_views(names@)),
{
    let ghost nv = name_views(names@);
    let mut order: Vec<usize> = Vec::new();
    let mut k: usize = 0;
    while k < names.len()
        invariant
            nv == name_views(names@),
            nv.len() == names@.len(),
            k <= names@.len(),
            order@.len() == k,
            forall|i: int| 0 <= i < order@.len() ==> #[trigger] order@[i] < k,
            forall|i: int, j: int| 0 <= i < j < order@.len() ==> order@[i] != order@[j],
            is_sorted_by_name(order@, nv),
        decreases names@.len() - k,
    {
        let mut p: usize = order.len();
        while p > 0 && !names_in_order(&names[order[p - 1]], &names[k])
            invariant
                nv == name_views(names@),
                nv.len() == names@.len(),
                k < names@.len(),
                p <= order@.len(),
                order@.len() == k,
                forall|i: int| 0 <= i < order@.len() ==> #[trigger] order@[i] < k,
                forall|q: int| p <= q < order@.len() ==> !name_le(#[trigger] nv[order@[q] as int], nv[k as int]),
            decreases p,
        {
            p = p - 1;
        }
        let ghost old_order = order@;
        proof {
            assert forall|q: int| 0 <= q < old_order.len() implies (#[trigger] nv[old_order[q] as int]) == names@[old_order[q] as int]@ by {}
            if p > 0 {
                assert(name_le(nv[old_order[p - 1] as int], nv[k as int]));
            }
        }
        order.insert(p, k);
        proof {
            let no = order@;
            assert(no == old_order.insert(p as int, k));
            assert forall|i: int| 0 <= i < no.len() implies #[trigger] no[i] < k + 1 by {
                if i < p { assert(no[i] == old_order[i]); } else if i > p { assert(no[i] == old_order[i - 1]); }
            }
            assert forall|i: int, j: int| 0 <= i < j < no.len() implies no[i] != no[j] by {
                if i < p && j < p {
                } else if i < p && j == p {
                    assert(no[i] == old_order[i]);
                } else if i < p && j > p {
                    assert(no[i] == old_order[i]);
                    assert(no[j] == old_order[j - 1]);
                } else if i == p {
                    assert(no[j] == old_order[j - 1]);
                } else {
                    assert(no[i] == old_order[i - 1]);
                    assert(no[j] == old_order[j - 1]);
                }
            }
            assert forall|i: int, j: int|
                0 <= i < j < no.len() implies name_le(#[trigger] nv[no[i] as int], #[trigger] nv[no[j] as int]) by {
                if i < p && j < p {
                    assert(no[i] == old_order[i] && no[j] == old_order[j]);
                } else if i < p && j == p {
                    assert(no[i] == old_order[i]);
                    if i < p - 1 {
                        assert(name_le(nv[old_order[i] as int], nv[old_order[p - 1] as int]));
                        lemma_name_le_transitive(nv[old_order[i] as int], nv[old_order[p - 1] as int], nv[k as int]);
                    }
                } else if i < p && j > p {
                    assert(no[i] == old_order[i] && no[j] == old_order[j - 1]);
                } else if i == p {
                    assert(no[j] == old_order[j - 1]);
                    assert(!name_le(nv[old_order[j - 1] as int], nv[k as int]));
                    lemma_name_le_total(nv[old_order[j - 1] as int], nv[k as int]);
                } else {
                    assert(no[i] == old_order[i - 1] && no[j] == old_order[j - 1]);
                }
            }
            assert forall|i: int, j: int|
                0 <= i < j < no.len() && nv[no[i] as int] == nv[no[j] as int] implies #[trigger] no[i]
                    < #[trigger] no[j] by {
                if i < p && j < p {
                    assert(no[i] == old_order[i] && no[j] == old_order[j]);
                } else if i < p && j == p {
                    assert(no[i] == old_order[i]);
                } else if i < p && j > p {
                    assert(no[i] == old_order[i] && no[j] == old_order[j - 1]);
                } else if i == p {
                    assert(no[j] == old_order[j - 1]);
                    assert(!name_le(nv[old_order[j - 1] as int], nv[k as int]));
                    lemma_name_le_reflexive(nv[k as int]);
                } else {
                    assert(no[i] == old_order[i - 1] && no[j] == old_order[j - 1]);
                }
            }
        }
        k = k + 1;
    }
    order
}

/// Whether an interface is listed: `down_only` leaves out the interfaces that
/// are up, `up_only` those that are down.
pub open spec fn is_listed(is_up: bool, down_only: bool, up_only: bool) -> bool {
    !(down_only && is_up) && !(up_only && !is_up)
}

/// Whether an interface is listed (see `is_listed`).
pub fn listed(is_up: bool, down_only: bool, up_only: bool) -> (r: bool)
    ensures
        r == is_listed(is_up, down_only, up_only),
{
    !(down_only && is_up) && !(up_only && !is_up)
}

/// The networks of an interface, each ` ADDRESS/PREFIX ` with the address and
/// prefix padded to 18 characters.
pub open spec fn networks_text(nets: Seq<(Ipv4, u8)>) -> Seq<char>
    decreases nets.len(),
{
    if nets.len() == 0 {
        seq![]
    } else {
        networks_text(nets.drop_last()) + " "@ + pad_right(
            ipv4_text(nets.last().0) + "/"@ + decimal(nets.last().1 as nat),
            18,
        ) + " "@
    }
}

/// The row of an interface: its name padded to 10, its state (`UP` or `DOWN`)
/// padded to 5, its MAC address (or `Unknown`) padded to 16, then its IPv4
/// networks.
pub open spec fn interface_row_text(name: Seq<char>, is_up: bool, mac: Option<[u8; 6]>, nets: Seq<(Ipv4, u8)>) -> Seq<char> {
    pad_right(name, 10) + " "@ + pad_right(if is_up { "UP"@ } else { "DOWN"@ }, 5) + " "@ + pad_right(
        match mac {
            Some(m) => mac_text(m@),
            None => "Unknown"@,
        },
        16,
    ) + " "@ + networks_text(nets)
}

/// Builds the row of an interface (see `interface_row_text`).
pub fn interface_row(name: &str, is_up: bool, mac: Option<[u8; 6]>, nets: &Vec<(Ipv4, u8)>) -> (s: String)
    ensures
        s@ == interface_row_text(name@, is_up, mac, nets@),
{
    let mut s = String::new();
    push_padded(&mut s, name, 10);
    push_str(&mut s, " ");
    if is_up {
        push_padded(&mut s, "UP", 5);
    } else {
        push_padded(&mut s, "DOWN", 5);
    }
    push_str(&mut s, " ");
    let mut m = String::new();
    match mac {
        Some(a) => push_mac(&mut m, &a),
        None => push_str(&mut m, "Unknown"),
    }
    push_padded(&mut s, m.as_str(), 16);
    push_str(&mut s, " ");
    let ghost head = s@;
    let mut i: usize = 0;
    while i < nets.len()
        invariant
            i <= nets@.len(),
            s@ == head + networks_text(nets@.subrange(0, i as int)),
        decreases nets@.len() - i,
    {
        let (ip, prefix) = nets[i];
        let mut cell = String::new();
        push_ipv4(&mut cell, ip);
        push_str(&mut cell, "/");
        push_decimal(&mut cell, prefix as u64);
        push_str(&mut s, " ");
        push_padded(&mut s, cell.as_str(), 18);
        push_str(&mut s, " ");
        proof {
            let sub = nets@.subrange(0, i + 1);
            assert(sub.drop_last() =~= nets@.subrange(0, i as int));
            assert(sub.last() == nets@[i as int]);
            assert(cell@ =~= ipv4_text(ip) + "/"@ + decimal(prefix as nat));
            assert(s@ =~= head + networks_text(sub));
        }
        i = i + 1;
    }
    proof {
        assert(nets@.subrange(0, nets@.len() as int) =~= nets@);
        assert(s@ =~= interface_row_text(name@, is_up, mac, nets@));
    }
    s
}

} // verus!
