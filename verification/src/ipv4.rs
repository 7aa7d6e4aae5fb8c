//! IPv4 addresses: dotted-decimal parsing and formatting, and network membership.
use vstd::prelude::*;
use vstd::arithmetic::power2::{pow2, lemma_pow2_pos, lemma_pow2_unfold, lemma2_to64};
use crate::error::NtkError;
use crate::text::{decimal, digit_char, digit_value, is_digit, lemma_decimal_len, chars_of, push_char, push_decimal};

verus! {

/// An IPv4 address held as its four octets, `a.b.c.d`.
#[derive(Clone, Copy, Debug, PartialEq, Eq, Structural)]
pub struct Ipv4 {
    pub a: u8,
    pub b: u8,
    pub c: u8,
    pub d: u8,
}

/// The dotted-decimal text of `ip`, as `Display` for an IPv4 address writes it.
pub open spec fn ipv4_text(ip: Ipv4) -> Seq<char> {
    decimal(ip.a as nat) + seq!['.'] + decimal(ip.b as nat) + seq!['.'] + decimal(ip.c as nat)
        + seq!['.'] + decimal(ip.d as nat)
}

/// `s` is the dotted-decimal text of some IPv4 address: four octets in canonical
/// decimal (no sign, no leading zero, at most 255), separated by dots.
pub open spec fn is_ipv4_text(s: Seq<char>) -> bool {
    exists|ip: Ipv4| #[trigger] ipv4_text(ip) == s
}

/// The address as a 32-bit number, first octet most significant.
pub open spec fn ipv4_value(ip: Ipv4) -> nat {
    ip.a as nat * 16777216 + ip.b as nat * 65536 + ip.c as nat * 256 + ip.d as nat
}

/// The number of consecutive decimal digits of `s` from position `p` on.
pub open spec fn digit_run(s: Seq<char>, p: int) -> nat
    decreases s.len() - p,
{
    if 0 <= p < s.len() && is_digit(s[p]) {
        1 + digit_run(s, p + 1)
    } else {
        0
    }
}

/// Reads one octet of an address at position `p`: between one and three digits,
/// no leading zero unless the octet is a single `0`, and at most 255. Gives the
/// octet and the position after it.
pub open spec fn octet_at(s: Seq<char>, p: int) -> Option<(u8, int)> {
    let k = digit_run(s, p);
    if k == 0 || k > 3 {
        None
    } else if k > 1 && s[p] == '0' {
        None
    } else {
        let v = if k == 1 {
            digit_value(s[p])
        } else if k == 2 {
            10 * digit_value(s[p]) + digit_value(s[p + 1])
        } else {
            100 * digit_value(s[p]) + 10 * digit_value(s[p + 1]) + digit_value(s[p + 2])
        };
        if v > 255 {
            None
        } else {
            Some((v as u8, p + k))
        }
    }
}

/// Reads the octet at `p` when it is followed by a dot; gives the octet and the
/// position after the dot.
pub open spec fn octet_dot_at(s: Seq<char>, p: int) -> Option<(u8, int)> {
    match octet_at(s, p) {
        Some((v, q)) => if q < s.len() && s[q] == '.' {
            Some((v, q + 1))
        } else {
            None
        },
        None => None,
    }
}

/// The address that `s` reads as, octet by octet from the left.
pub open spec fn parse_ipv4_spec(s: Seq<char>) -> Option<Ipv4> {
    match octet_dot_at(s, 0) {
        Some((a, p1)) => match octet_dot_at(s, p1) {
            Some((b, p2)) => match octet_dot_at(s, p2) {
                Some((c, p3)) => match octet_at(s, p3) {
                    Some((d, p4)) => if p4 == s.len() {
                        Some(Ipv4 { a, b, c, d })
                    } else {
                        None
                    },
                    None => None,
                },
                None => None,
            },
            None => None,
        },
        None => None,
    }
}

/// The decimal text of a number below 1000, digit by digit.
proof fn lemma_decimal_small(n: nat)
    requires
        n < 1000,
    ensures
        n < 10 ==> decimal(n) == seq![digit_char(n)],
        10 <= n < 100 ==> decimal(n) == seq![digit_char(n / 10), digit_char(n % 10)],
        100 <= n ==> decimal(n) == seq![
            digit_char(n / 100),
            digit_char((n / 10) % 10),
            digit_char(n % 10),
        ],
{
    if n >= 10 {
        let m = n / 10;
        assert(decimal(n) == decimal(m).push(digit_char(n % 10)));
        if m < 10 {
            assert(decimal(m) == seq![digit_char(m)]);
            assert(decimal(n) =~= seq![digit_char(n / 10), digit_char(n % 10)]);
        }
        if m >= 10 {
            assert(decimal(m) == seq![digit_char(m / 10), digit_char(m % 10)]) by {
                assert(decimal(m / 10) == seq![digit_char(m / 10)]);
            }
            assert(m / 10 == n / 100);
            assert(decimal(n) =~= seq![
                digit_char(n / 100),
                digit_char((n / 10) % 10),
                digit_char(n % 10),
            ]);
        }
    }
}

proof fn lemma_digit_roundtrip(c: char)
    requires
        is_digit(c),
    ensures
        digit_char(digit_value(c) as nat) == c,
        0 <= digit_value(c) < 10,
{
}

proof fn lemma_digit_char_is_digit(d: nat)
    requires
        d < 10,
    ensures
        is_digit(digit_char(d)),
        digit_value(digit_char(d)) == d,
{
}

/// The digits of `decimal(v)` at `p`, followed by something that is no digit,
/// read back as the octet `v`.
proof fn lemma_octet_of_decimal(s: Seq<char>, p: int, v: u8)
    requires
        0 <= p,
        p + decimal(v as nat).len() <= s.len(),
        s.subrange(p, p + decimal(v as nat).len()) == decimal(v as nat),
        p + decimal(v as nat).len() == s.len() || !is_digit(s[p + decimal(v as nat).len()]),
    ensures
        octet_at(s, p) == Some((v, p + decimal(v as nat).len())),
{
    let n = v as nat;
    lemma_decimal_small(n);
    let k = decimal(n).len() as int;
    assert(s[p] == decimal(n)[0]);
    if n < 10 {
        lemma_digit_char_is_digit(n);
        reveal_with_fuel(digit_run, 2);
        assert(digit_run(s, p) == 1);
    } else if n < 100 {
        assert(s[p + 1] == decimal(n)[1]);
        lemma_digit_char_is_digit(n / 10);
        lemma_digit_char_is_digit(n % 10);
        reveal_with_fuel(digit_run, 3);
        assert(digit_run(s, p) == 2);
    } else {
        assert(s[p + 1] == decimal(n)[1]);
        assert(s[p + 2] == decimal(n)[2]);
        lemma_digit_char_is_digit(n / 100);
        lemma_digit_char_is_digit((n / 10) % 10);
        lemma_digit_char_is_digit(n % 10);
        reveal_with_fuel(digit_run, 4);
        assert(digit_run(s, p) == 3);
    }
}

/// An octet read at `p` is the decimal text of its value, followed by no digit.
proof fn lemma_octet_sound(s: Seq<char>, p: int)
    requires
        0 <= p,
        octet_at(s, p) is Some,
    ensures
        ({
            let (v, q) = octet_at(s, p).unwrap();
            &&& q == p + decimal(v as nat).len()
            &&& q <= s.len()
            &&& s.subrange(p, q) == decimal(v as nat)
            &&& (q == s.len() || !is_digit(s[q]))
        }),
{
    let k = digit_run(s, p);
    let (v, q) = octet_at(s, p).unwrap();
    let n = v as nat;
    lemma_decimal_small(n);
    reveal_with_fuel(digit_run, 4);
    if k == 1 {
        lemma_digit_roundtrip(s[p]);
        assert(s.subrange(p, q) =~= decimal(n));
    } else if k == 2 {
        assert(digit_run(s, p + 1) == 1);
        lemma_digit_roundtrip(s[p]);
        lemma_digit_roundtrip(s[p + 1]);
        assert(n / 10 == digit_value(s[p]));
        assert(n % 10 == digit_value(s[p + 1]));
        assert(s.subrange(p, q) =~= decimal(n));
    } else {
        assert(digit_run(s, p + 1) == 2);
        assert(digit_run(s, p + 2) == 1);
        lemma_digit_roundtrip(s[p]);
        lemma_digit_roundtrip(s[p + 1]);
        lemma_digit_roundtrip(s[p + 2]);
        assert(n / 100 == digit_value(s[p]));
        assert((n / 10) % 10 == digit_value(s[p + 1]));
        assert(n % 10 == digit_value(s[p + 2]));
        assert(s.subrange(p, q) =~= decimal(n));
    }
}

/// The dotted-decimal text of an address reads back as that address.
pub proof fn lemma_text_parses(ip: Ipv4)
    ensures
        parse_ipv4_spec(ipv4_text(ip)) == Some(ip),
{
    let s = ipv4_text(ip);
    let da = decimal(ip.a as nat);
    let db = decimal(ip.b as nat);
    let dc = decimal(ip.c as nat);
    let dd = decimal(ip.d as nat);
    lemma_decimal_len(ip.a as nat);
    lemma_decimal_len(ip.b as nat);
    lemma_decimal_len(ip.c as nat);
    lemma_decimal_len(ip.d as nat);
    let p1 = da.len() as int;
    let p2 = p1 + 1 + db.len();
    let p3 = p2 + 1 + dc.len();
    let p4 = p3 + 1 + dd.len();
    assert(s.len() == p4);
    assert(s.subrange(0, p1) =~= da);
    assert(s[p1] == '.');
    lemma_octet_of_decimal(s, 0, ip.a);
    assert(s.subrange(p1 + 1, p2) =~= db);
    assert(s[p2] == '.');
    lemma_octet_of_decimal(s, p1 + 1, ip.b);
    assert(s.subrange(p2 + 1, p3) =~= dc);
    assert(s[p3] == '.');
    lemma_octet_of_decimal(s, p2 + 1, ip.c);
    assert(s.subrange(p3 + 1, p4) =~= dd);
    lemma_octet_of_decimal(s, p3 + 1, ip.d);
}

/// Text that reads as an address is the dotted-decimal text of that address.
pub proof fn lemma_parse_sound(s: Seq<char>)
    requires
        parse_ipv4_spec(s) is Some,
    ensures
        ipv4_text(parse_ipv4_spec(s).unwrap()) == s,
{
    let (a, p1) = octet_dot_at(s, 0).unwrap();
    lemma_octet_sound(s, 0);
    let (b, p2) = octet_dot_at(s, p1).unwrap();
    lemma_octet_sound(s, p1);
    let (c, p3) = octet_dot_at(s, p2).unwrap();
    lemma_octet_sound(s, p2);
    let (d, p4) = octet_at(s, p3).unwrap();
    lemma_octet_sound(s, p3);
    let ip = Ipv4 { a, b, c, d };
    assert(ipv4_text(ip) =~= s.subrange(0, p1 - 1) + seq!['.'] + s.subrange(p1, p2 - 1) + seq![
        '.',
    ] + s.subrange(p2, p3 - 1) + seq!['.'] + s.subrange(p3, p4));
    assert(s =~= s.subrange(0, p1 - 1) + seq!['.'] + s.subrange(p1, p2 - 1) + seq!['.']
        + s.subrange(p2, p3 - 1) + seq!['.'] + s.subrange(p3, p4));
}

/// Text is the dotted-decimal form of an address exactly when it reads as one,
/// and then it reads as that address.
pub proof fn lemma_is_ipv4_text_iff_parses(s: Seq<char>)
    ensures
        is_ipv4_text(s) <==> parse_ipv4_spec(s) is Some,
        forall|ip: Ipv4| ipv4_text(ip) == s ==> parse_ipv4_spec(s) == Some(ip),
{
    if parse_ipv4_spec(s) is Some {
        lemma_parse_sound(s);
        assert(ipv4_text(parse_ipv4_spec(s).unwrap()) == s);
    }
    assert forall|ip: Ipv4| ipv4_text(ip) == s implies parse_ipv4_spec(s) == Some(ip) by {
        lemma_text_parses(ip);
    }
}

/// Two addresses with the same dotted-decimal text are the same address.
pub proof fn lemma_ipv4_text_injective(x: Ipv4, y: Ipv4)
    requires
        ipv4_text(x) == ipv4_text(y),
    ensures
        x == y,
{
    lemma_text_parses(x);
    lemma_text_parses(y);
}

/// The number of digits from position `p` on, counting at most four.
fn digit_run_upto4(s: &Vec<char>, p: usize) -> (k: usize)
    requires
        p <= s.len(),
    ensures
        k <= 4,
        k == (if digit_run(s@, p as int) > 4 { 4 } else { digit_run(s@, p as int) }),
{
    let mut k: usize = 0;
    while k < 4 && p + k < s.len() && '0' <= s[p + k] && s[p + k] <= '9'
        invariant
            p <= s.len(),
            k <= 4,
            p + k <= s.len(),
            forall|j: int| p <= j < p + k ==> is_digit(s@[j]),
            digit_run(s@, p as int) >= k,
            digit_run(s@, p as int) == k + digit_run(s@, (p + k) as int),
        decreases 4 - k,
    {
        proof {
            assert(digit_run(s@, (p + k) as int) == 1 + digit_run(s@, (p + k + 1) as int));
        }
        k = k + 1;
    }
    proof {
        if k < 4 {
            assert(digit_run(s@, (p + k) as int) == 0);
        }
    }
    k
}

/// The value of the digit `c`.
fn digit_of(c: char) -> (d: u32)
    requires
        is_digit(c),
    ensures
        d == digit_value(c),
        d < 10,
{
    (c as u32) - 48
}

/// Reads one octet at `p` (see `octet_at`).
fn read_octet(s: &Vec<char>, p: usize) -> (r: Option<(u8, usize)>)
    requires
        p <= s.len(),
    ensures
        r is None <==> octet_at(s@, p as int) is None,
        r matches Some((v, q)) ==> octet_at(s@, p as int) == Some((v, q as int)) && q <= s.len(),
{
    let k = digit_run_upto4(s, p);
    if k == 0 || k > 3 {
        return None;
    }
    proof {
        reveal_with_fuel(digit_run, 4);
        if k >= 2 {
            assert(digit_run(s@, (p + 1) as int) == k - 1);
        }
        if k >= 3 {
            assert(digit_run(s@, (p + 2) as int) == k - 2);
        }
    }
    if k > 1 && s[p] == '0' {
        return None;
    }
    let v: u32 = if k == 1 {
        digit_of(s[p])
    } else if k == 2 {
        10 * digit_of(s[p]) + digit_of(s[p + 1])
    } else {
        100 * digit_of(s[p]) + 10 * digit_of(s[p + 1]) + digit_of(s[p + 2])
    };
    if v > 255 {
        return None;
    }
    Some((v as u8, p + k))
}

/// Reads one octet at `p` followed by a dot (see `octet_dot_at`).
fn read_octet_dot(s: &Vec<char>, p: usize) -> (r: Option<(u8, usize)>)
    requires
        p <= s.len(),
    ensures
        r is None <==> octet_dot_at(s@, p as int) is None,
        r matches Some((v, q)) ==> octet_dot_at(s@, p as int) == Some((v, q as int)) && q <= s.len(),
{
    let o = read_octet(s, p);
    match o {
        Some((v, q)) => {
            assert(octet_at(s@, p as int) == Some((v, q as int)));
            if q < s.len() && s[q] == '.' {
                Some((v, q + 1))
            } else {
                None
            }
        },
        None => None,
    }
}

/// Reads the characters `v` as an IPv4 address (see `parse_ipv4_spec`).
pub fn parse_ipv4_chars(v: &Vec<char>) -> (r: Option<Ipv4>)
    ensures
        r == parse_ipv4_spec(v@),
{
    match read_octet_dot(v, 0) {
        Some((a, p1)) => match read_octet_dot(v, p1) {
            Some((b, p2)) => match read_octet_dot(v, p2) {
                Some((c, p3)) => match read_octet(v, p3) {
                    Some((d, p4)) => if p4 == v.len() {
                        Some(Ipv4 { a, b, c, d })
                    } else {
                        None
                    },
                    None => None,
                },
                None => None,
            },
            None => None,
        },
        None => None,
    }
}

/// Reads `s` as an IPv4 address in dotted-decimal notation.
pub fn parse_ipv4(s: &str) -> (r: Option<Ipv4>)
    ensures
        r is Some <==> is_ipv4_text(s@),
        r matches Some(ip) ==> ipv4_text(ip) == s@,
{
    proof {
        lemma_is_ipv4_text_iff_parses(s@);
    }
    let v = chars_of(s);
    let r = parse_ipv4_chars(&v);
    proof {
        if r is Some {
            lemma_parse_sound(s@);
        }
    }
    r
}

/// Returns true or false if string is a valid IPv4 addresses
pub fn is_valid_ipv4(s: &str) -> (r: bool)
    ensures
        r == is_ipv4_text(s@),
{
    parse_ipv4(s).is_some()
}

/// Asserts a string is a valid IPv4 addresses.
/// The string must be valid: the address in it is what callers go on with.
pub fn assert_is_valid_ipv4(s: &str)
    requires
        is_ipv4_text(s@),
{
    let ok = is_valid_ipv4(s);
    assert(ok);
}

/// Converts a string that holds a valid IPv4 address to that address.
pub fn str_to_ip(s: &str) -> (ip: Ipv4)
    requires
        is_ipv4_text(s@),
    ensures
        ipv4_text(ip) == s@,
{
    assert_is_valid_ipv4(s);
    match parse_ipv4(s) {
        Some(ip) => ip,
        None => {
            proof {
                assert(false);
            }
            Ipv4 { a: 0, b: 0, c: 0, d: 0 }
        },
    }
}

/// Appends the dotted-decimal text of `ip`.
pub fn push_ipv4(s: &mut String, ip: Ipv4)
    ensures
        final(s)@ == old(s)@ + ipv4_text(ip),
{
    push_decimal(s, ip.a as u64);
    push_char(s, '.');
    push_decimal(s, ip.b as u64);
    push_char(s, '.');
    push_decimal(s, ip.c as u64);
    push_char(s, '.');
    push_decimal(s, ip.d as u64);
    proof {
        assert(final(s)@ =~= old(s)@ + ipv4_text(ip));
    }
}

/// The dotted-decimal text of `ip`.
pub fn ipv4_to_string(ip: Ipv4) -> (s: String)
    ensures
        s@ == ipv4_text(ip),
{
    let mut s = String::new();
    push_ipv4(&mut s, ip);
    s
}

/// Formatting an address and reading the text back gives the same address.
pub proof fn law_ipv4_text_roundtrip(ip: Ipv4)
    ensures
        is_ipv4_text(ipv4_text(ip)),
        parse_ipv4_spec(ipv4_text(ip)) == Some(ip),
        forall|other: Ipv4| ipv4_text(other) == ipv4_text(ip) ==> other == ip,
{
    lemma_text_parses(ip);
    assert forall|other: Ipv4| ipv4_text(other) == ipv4_text(ip) implies other == ip by {
        lemma_ipv4_text_injective(other, ip);
    }
}

/// The address as a 32-bit number.
pub fn ipv4_to_u32(ip: Ipv4) -> (n: u32)
    ensures
        n == ipv4_value(ip),
{
    (ip.a as u32) * 16777216 + (ip.b as u32) * 65536 + (ip.c as u32) * 256 + (ip.d as u32)
}

/// The address whose 32-bit number is `n`.
pub fn ipv4_from_u32(n: u32) -> (ip: Ipv4)
    ensures
        ipv4_value(ip) == n,
{
    let a = n / 16777216;
    let r1 = n % 16777216;
    let b = r1 / 65536;
    let r2 = r1 % 65536;
    let c = r2 / 256;
    let d = r2 % 256;
    assert(n == a * 16777216 + r1);
    assert(r1 == b * 65536 + r2);
    assert(r2 == c * 256 + d);
    assert(a < 256);
    Ipv4 { a: a as u8, b: b as u8, c: c as u8, d: d as u8 }
}

/// The number of host addresses of a network whose prefix is `prefix` bits long.
pub open spec fn network_size(prefix: nat) -> nat {
    pow2((32 - prefix) as nat)
}

/// `ip` lies in the network of `net` whose prefix is `prefix` bits long: the two
/// agree on their first `prefix` bits.
pub open spec fn in_network(net: Ipv4, prefix: nat, ip: Ipv4) -> bool {
    ipv4_value(ip) / network_size(prefix) == ipv4_value(net) / network_size(prefix)
}

/// The first address (the network address) of the network of `ip`.
pub open spec fn network_start(ip: Ipv4, prefix: nat) -> nat {
    (ipv4_value(ip) - ipv4_value(ip) % network_size(prefix)) as nat
}

/// A network that starts at a multiple of its size ends within the 32-bit space.
proof fn lemma_range_fits(x: nat, p: nat)
    requires
        p <= 32,
        x < 0x1_0000_0000,
    ensures
        x - x % pow2((32 - p) as nat) + pow2((32 - p) as nat) <= 0x1_0000_0000,
{
    let size = pow2((32 - p) as nat);
    let m = pow2(p);
    vstd::arithmetic::power2::lemma_pow2_adds((32 - p) as nat, p);
    lemma2_to64();
    lemma_pow2_pos((32 - p) as nat);
    lemma_pow2_pos(p);
    let q = x / size;
    vstd::arithmetic::div_mod::lemma_fundamental_div_mod(x as int, size as int);
    assert(size * m == 0x1_0000_0000);
    assert(x % size >= 0 && x % size < size) by {
        vstd::arithmetic::div_mod::lemma_mod_bound(x as int, size as int);
    }
    assert(q < m) by (nonlinear_arith)
        requires
            x == size * q + x % size,
            x % size >= 0,
            x < size * m,
            size > 0,
    {
    }
    assert(size * (q + 1) <= size * m) by (nonlinear_arith)
        requires
            q < m,
            size > 0,
    {
    }
    let r = x % size;
    assert(x - r + size == size * (q + 1)) by (nonlinear_arith)
        requires
            x == size * q + r,
    {
    }
}

/// `2` to the power `e`, for `e <= 32`.
fn pow2_u64(e: u32) -> (r: u64)
    requires
        e <= 32,
    ensures
        r == pow2(e as nat),
        r >= 1,
{
    let mut r: u64 = 1;
    let mut i: u32 = 0;
    proof {
        lemma2_to64();
    }
    while i < e
        invariant
            i <= e,
            e <= 32,
            r == pow2(i as nat),
            r <= 0x1_0000_0000,
        decreases e - i,
    {
        proof {
            lemma_pow2_unfold((i + 1) as nat);
            lemma_pow2_le32((i + 1) as nat);
        }
        r = r * 2;
        i = i + 1;
    }
    proof {
        lemma_pow2_pos(e as nat);
    }
    r
}

proof fn lemma_pow2_le32(e: nat)
    requires
        e <= 32,
    ensures
        pow2(e) <= 0x1_0000_0000,
    decreases 32 - e,
{
    lemma2_to64();
    if e < 32 {
        lemma_pow2_le32(e + 1);
        lemma_pow2_unfold(e + 1);
        lemma_pow2_pos(e);
    }
}

/// Whether `ip` lies in the network of `net` with a prefix of `prefix` bits
/// (as `contains` on an IPv4 network does).
pub fn net_contains(net: Ipv4, prefix: u8, ip: Ipv4) -> (r: bool)
    requires
        prefix <= 32,
    ensures
        r == in_network(net, prefix as nat, ip),
{
    let size = pow2_u64(32 - prefix as u32);
    let x = ipv4_to_u32(ip) as u64;
    let y = ipv4_to_u32(net) as u64;
    x / size == y / size
}

/// The first and the last address of the network of `ip` with a prefix of
/// `prefix` bits, as 32-bit numbers (the range that iterating such a network
/// walks, from the network address to the broadcast address).
pub fn network_range(ip: Ipv4, prefix: u8) -> (r: (u32, u32))
    requires
        prefix <= 32,
    ensures
        r.0 == network_start(ip, prefix as nat),
        r.1 == network_start(ip, prefix as nat) + network_size(prefix as nat) - 1,
{
    let size = pow2_u64(32 - prefix as u32);
    let x = ipv4_to_u32(ip) as u64;
    proof {
        vstd::arithmetic::div_mod::lemma_fundamental_div_mod(x as int, size as int);
        assert(x % size <= x) by (nonlinear_arith)
            requires
                x == size * (x / size) + x % size,
                size > 0,
                x / size >= 0,
                x % size >= 0,
        {
        }
    }
    let start = x - x % size;
    proof {
        assert(x % size < size);
        assert(start % size == 0) by (nonlinear_arith)
            requires
                start == x - x % size,
                size > 0,
        {
            assert(x == size * (x / size) + x % size);
            assert(start == size * (x / size));
        }
        lemma_range_fits(x as nat, prefix as nat);
    }
    let end = start + (size - 1);
    (start as u32, end as u32)
}


/// A network holds exactly the addresses from its first address up to, but
/// not including, its first address plus its size: the range that
/// `network_range` gives is the network.
pub proof fn law_network_range_members(ip: Ipv4, prefix: nat, x: Ipv4)
    requires
        prefix <= 32,
    ensures
        in_network(ip, prefix, x) <==> (network_start(ip, prefix) <= ipv4_value(x)
            < network_start(ip, prefix) + network_size(prefix)),
{
    let size = network_size(prefix);
    lemma_pow2_pos((32 - prefix) as nat);
    let v = ipv4_value(ip) as int;
    let w = ipv4_value(x) as int;
    let q = v / size as int;
    vstd::arithmetic::div_mod::lemma_fundamental_div_mod(v, size as int);
    vstd::arithmetic::div_mod::lemma_fundamental_div_mod(w, size as int);
    vstd::arithmetic::div_mod::lemma_mod_bound(v, size as int);
    vstd::arithmetic::div_mod::lemma_mod_bound(w, size as int);
    let start = network_start(ip, prefix) as int;
    assert(start == q * size) by (nonlinear_arith)
        requires
            v == size * q + v % (size as int),
            start == v - v % (size as int),
    {
    }
    if in_network(ip, prefix, x) {
        assert(w / (size as int) == q);
        assert(start <= w < start + size) by (nonlinear_arith)
            requires
                w == size * q + w % (size as int),
                0 <= w % (size as int) < size,
                start == q * size,
        {
        }
    }
    if start <= w < start + size {
        vstd::arithmetic::div_mod::lemma_fundamental_div_mod_converse(w, size as int, q, w - start);
    }
}

/// An IP address of either version; a version 6 address is held as its 128-bit
/// number.
#[derive(Clone, Copy, Debug, PartialEq, Eq, Structural)]
pub enum IpAddress {
    V4(Ipv4),
    V6(u128),
}

/// The first version 4 address of a list, if it has one.
pub open spec fn first_ipv4_spec(addrs: Seq<IpAddress>) -> Option<Ipv4>
    decreases addrs.len(),
{
    if addrs.len() == 0 {
        None
    } else {
        match addrs[0] {
            IpAddress::V4(ip) => Some(ip),
            IpAddress::V6(_) => first_ipv4_spec(addrs.drop_first()),
        }
    }
}

/// The first version 4 address of a list, as a name lookup that may also give
/// version 6 addresses is read (see `first_ipv4_spec`).
pub fn first_ipv4(addrs: &Vec<IpAddress>) -> (r: Option<Ipv4>)
    ensures
        r == first_ipv4_spec(addrs@),
{
    let mut i: usize = 0;
    assert(addrs@.subrange(0, addrs@.len() as int) =~= addrs@);
    while i < addrs.len()
        invariant
            i <= addrs@.len(),
            first_ipv4_spec(addrs@) == first_ipv4_spec(addrs@.subrange(i as int, addrs@.len() as int)),
        decreases addrs@.len() - i,
    {
        proof {
            let rest = addrs@.subrange(i as int, addrs@.len() as int);
            assert(rest.drop_first() =~= addrs@.subrange(i + 1, addrs@.len() as int));
            assert(rest[0] == addrs@[i as int]);
        }
        match addrs[i] {
            IpAddress::V4(ip) => {
                return Some(ip);
            },
            IpAddress::V6(_) => {},
        }
        i = i + 1;
    }
    None
}

/// A version 4 address as such; a version 6 address is an `Ipv6FoundError`.
pub fn require_ipv4(addr: IpAddress) -> (r: Result<Ipv4, NtkError>)
    ensures
        addr matches IpAddress::V4(ip) ==> r == Ok::<Ipv4, NtkError>(ip),
        addr is V6 ==> r matches Err(NtkError::Ipv6FoundError),
{
    match addr {
        IpAddress::V4(ip) => Ok(ip),
        IpAddress::V6(_) => Err(NtkError::Ipv6FoundError),
    }
}

} // verus!
