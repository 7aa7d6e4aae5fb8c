//! MAC addresses and their vendor prefix (OUI), for the `mac-vendor` lookup.
use vstd::prelude::*;
use crate::text::{
    all_hex, chars_of, digit_char, hex_byte_lower, hex_digit_value, hex_digits_value, hex_number,
    is_hex_digit, parse_hex, push_str, split_chars, split_on,
};

verus! {

/// One colon-separated part of a MAC address: exactly two characters read in
/// base 16 (an optional `+` then digits, as `u8::from_str_radix` reads them).
pub open spec fn mac_part_value(p: Seq<char>) -> Option<u8> {
    if p.len() != 2 {
        None
    } else {
        match hex_number(p) {
            Some(v) => if v < 256 {
                Some(v as u8)
            } else {
                None
            },
            None => None,
        }
    }
}

/// The vendor part (OUI) of a MAC address written as three to six parts
/// separated by `:`, each part two hexadecimal digits: the first three octets.
pub open spec fn mac_oci_spec(input: Seq<char>) -> Option<Seq<u8>> {
    let parts = split_on(input, ':');
    if parts.len() < 3 || parts.len() > 6 {
        None
    } else if forall|i: int| 0 <= i < parts.len() ==> (#[trigger] mac_part_value(parts[i])) is Some {
        Some(Seq::new(3, |i: int| mac_part_value(parts[i]).unwrap()))
    } else {
        None
    }
}

/// Reads the vendor part (OUI) of a MAC address given as at least its first
/// three octets: those three octets, or nothing when the text is not one (see
/// `mac_oci_spec`).
pub fn parse_to_mac_oci(input: &str) -> (r: Option<Vec<u8>>)
    ensures
        match mac_oci_spec(input@) {
            Some(bytes) => r is Some && r.unwrap()@ == bytes,
            None => r is None,
        },
{
    let cs = chars_of(input);
    let parts = split_chars(&cs, ':');
    if parts.len() < 3 || parts.len() > 6 {
        return None;
    }
    let mut bytes: Vec<u8> = Vec::new();
    let mut i: usize = 0;
    while i < parts.len()
        invariant
            cs@ == input@,
            3 <= parts@.len() <= 6,
            parts@.len() == split_on(input@, ':').len(),
            forall|k: int| 0 <= k < parts@.len() ==> #[trigger] parts@[k]@ == split_on(input@, ':')[k],
            i <= parts@.len(),
            bytes@.len() == if i < 3 { i as int } else { 3 },
            forall|k: int| 0 <= k < i ==> (#[trigger] mac_part_value(split_on(input@, ':')[k])) is Some,
            forall|k: int| 0 <= k < bytes@.len() ==> mac_part_value(#[trigger] split_on(input@, ':')[k]) == Some(bytes@[k]),
        decreases parts@.len() - i,
    {
        let part = &parts[i];
        if part.len() != 2 {
            assert(mac_part_value(split_on(input@, ':')[i as int]) is None);
            return None;
        }
        match parse_hex(part, 255) {
            Some(b) => {
                if i < 3 {
                    bytes.push(b as u8);
                }
            },
            None => {
                assert(mac_part_value(split_on(input@, ':')[i as int]) is None);
                return None;
            },
        }
        i = i + 1;
    }
    assert(bytes@ =~= Seq::new(3, |k: int| mac_part_value(split_on(input@, ':')[k]).unwrap()));
    Some(bytes)
}

/// The upper-case hexadecimal digit for `d` (for `d < 16`).
pub open spec fn hex_digit_upper(d: nat) -> char {
    if d < 10 {
        digit_char(d)
    } else {
        (d - 10 + 65) as char
    }
}

/// A byte written as two upper-case hexadecimal digits (as `{:02X}` does).
pub open spec fn hex_byte_upper(b: u8) -> Seq<char> {
    seq![hex_digit_upper((b / 16) as nat), hex_digit_upper((b % 16) as nat)]
}

/// Three octets written as hexadecimal pairs joined by `:`, in lower case
/// (`e4:bf:fa`) or in upper case (`E4:BF:FA`).
pub open spec fn oui_text(b: Seq<u8>, upper: bool) -> Seq<char> {
    let h = |x: u8| if upper { hex_byte_upper(x) } else { hex_byte_lower(x) };
    h(b[0]) + seq![':'] + h(b[1]) + seq![':'] + h(b[2])
}

/// Splitting a text with no separator in it gives the text itself.
proof fn lemma_split_no_sep(t: Seq<char>, sep: char)
    requires
        !t.contains(sep),
    ensures
        split_on(t, sep) == seq![t],
    decreases t.len(),
{
    if t.len() > 0 {
        assert(!t.drop_last().contains(sep)) by {
            if t.drop_last().contains(sep) {
                let j = choose|j: int| 0 <= j < t.drop_last().len() && t.drop_last()[j] == sep;
                assert(t[j] == sep);
            }
        }
        lemma_split_no_sep(t.drop_last(), sep);
        assert(t[t.len() - 1] != sep);
        assert(t.drop_last().push(t.last()) =~= t);
    } else {
        assert(t =~= seq![]);
    }
}

/// A separator and then a piece with no separator in it add that piece.
proof fn lemma_split_append_piece(s: Seq<char>, t: Seq<char>, sep: char)
    requires
        !t.contains(sep),
    ensures
        split_on(s + seq![sep] + t, sep) == split_on(s, sep).push(t),
    decreases t.len(),
{
    let u = s + seq![sep] + t;
    if t.len() == 0 {
        assert(u.drop_last() =~= s);
        assert(u.last() == sep);
        assert(t =~= seq![]);
    } else {
        assert(!t.drop_last().contains(sep)) by {
            if t.drop_last().contains(sep) {
                let j = choose|j: int| 0 <= j < t.drop_last().len() && t.drop_last()[j] == sep;
                assert(t[j] == sep);
            }
        }
        lemma_split_append_piece(s, t.drop_last(), sep);
        assert(u.drop_last() =~= s + seq![sep] + t.drop_last());
        assert(u.last() == t.last());
        assert(t[t.len() - 1] != sep);
        assert(t.drop_last().push(t.last()) =~= t);
        assert(split_on(s, sep).push(t.drop_last()).update(
            split_on(s, sep).len() as int,
            t.drop_last().push(t.last()),
        ) =~= split_on(s, sep).push(t));
    }
}

/// A byte's two hexadecimal digits, in either case, read back as the byte.
proof fn lemma_hex_pair(b: u8, upper: bool)
    ensures
        ({
            let p = if upper { hex_byte_upper(b) } else { hex_byte_lower(b) };
            &&& !p.contains(':')
            &&& mac_part_value(p) == Some(b)
        }),
{
    let p = if upper { hex_byte_upper(b) } else { hex_byte_lower(b) };
    let hi = (b / 16) as nat;
    let lo = (b % 16) as nat;
    assert(is_hex_digit(p[0]) && hex_digit_value(p[0]) == hi);
    assert(is_hex_digit(p[1]) && hex_digit_value(p[1]) == lo);
    assert(p[0] != ':' && p[1] != ':' && p[0] != '+');
    assert(!p.contains(':'));
    assert(all_hex(p));
    assert(p.drop_last().drop_last() =~= seq![]);
    let q = p.drop_last();
    assert(q.len() == 1 && q.last() == p[0]);
    assert(q.drop_last() =~= Seq::<char>::empty());
    assert(hex_digits_value(Seq::<char>::empty()) == 0);
    assert(hex_digits_value(q) == hex_digits_value(q.drop_last()) * 16 + hex_digit_value(q.last()));
    assert(hex_digits_value(q) == hi);
    assert(hex_digits_value(p) == hi * 16 + lo);
}

/// Law: three octets written as hexadecimal pairs joined by `:`, in lower or
/// upper case, read back as those three octets.
pub proof fn law_oui_text_roundtrip(b: Seq<u8>, upper: bool)
    requires
        b.len() == 3,
    ensures
        mac_oci_spec(oui_text(b, upper)) == Some(b),
{
    let h = |x: u8| if upper { hex_byte_upper(x) } else { hex_byte_lower(x) };
    lemma_hex_pair(b[0], upper);
    lemma_hex_pair(b[1], upper);
    lemma_hex_pair(b[2], upper);
    let t01 = h(b[0]) + seq![':'] + h(b[1]);
    lemma_split_no_sep(h(b[0]), ':');
    lemma_split_append_piece(h(b[0]), h(b[1]), ':');
    lemma_split_append_piece(t01, h(b[2]), ':');
    let parts = split_on(oui_text(b, upper), ':');
    assert(parts =~= seq![h(b[0]), h(b[1]), h(b[2])]);
    assert(Seq::new(3, |i: int| mac_part_value(parts[i]).unwrap()) =~= b);
}

/// Asserts a string is a valid MAC Address OCI (at least the first three
/// octets of a MAC address). The string must be one: the lookup goes on with it.
pub fn assert_valid_mac_oci(input: &str)
    requires
        mac_oci_spec(input@) is Some,
{
    let r = parse_to_mac_oci(input);
    assert(r is Some);
}

/// The first MAC vendor database that is asked.
pub open spec fn mac_lookup_url_1() -> Seq<char> {
    "https://api.macvendors.com/"@
}

/// The second MAC vendor database, asked when the first one fails.
pub open spec fn mac_lookup_url_2() -> Seq<char> {
    "https://api.maclookup.app/v2/macs/"@
}

/// The two vendor lookup URLs for `mac`, in the order they are tried.
pub fn mac_vendor_urls(mac: &str) -> (urls: (String, String))
    ensures
        urls.0@ == mac_lookup_url_1() + mac@,
        urls.1@ == mac_lookup_url_2() + mac@,
{
    let mut u1 = String::new();
    push_str(&mut u1, "https://api.macvendors.com/");
    push_str(&mut u1, mac);
    let mut u2 = String::new();
    push_str(&mut u2, "https://api.maclookup.app/v2/macs/");
    push_str(&mut u2, mac);
    (u1, u2)
}

/// What the vendor lookup prints.
#[derive(Debug)]
pub enum VendorReport {
    /// A line for standard output.
    Stdout(String),
    /// A line for standard error.
    Stderr(String),
}

/// The vendor lookup's answer from the `company` field of the second database:
/// the company, or that none was found when it is empty, or that the field is
/// missing.
pub fn vendor_report(company: Option<&str>, mac: &str) -> (r: VendorReport)
    ensures
        match company {
            Some(c) => if c@.len() == 0 {
                r matches VendorReport::Stdout(s) && s@ == "Was unable to find a vendor for '"@ + mac@ + "'"@
            } else {
                r matches VendorReport::Stdout(s) && s@ == c@
            },
            None => r matches VendorReport::Stderr(s) && s@
                == "'company' field not found or not a string in JSON response."@,
        },
{
    match company {
        Some(c) => {
            if c.unicode_len() == 0 {
                VendorReport::Stdout(not_found_message(mac))
            } else {
                let mut s = String::new();
                push_str(&mut s, c);
                VendorReport::Stdout(s)
            }
        },
        None => {
            let mut s = String::new();
            push_str(&mut s, "'company' field not found or not a string in JSON response.");
            VendorReport::Stderr(s)
        },
    }
}

/// The message for a MAC prefix that no database knows.
pub fn not_found_message(mac: &str) -> (s: String)
    ensures
        s@ == "Was unable to find a vendor for '"@ + mac@ + "'"@,
{
    let mut s = String::new();
    push_str(&mut s, "Was unable to find a vendor for '");
    push_str(&mut s, mac);
    push_str(&mut s, "'");
    s
}

} // verus!
