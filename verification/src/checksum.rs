//! The Internet checksum of IPv4, ICMP and TCP, as the packet library computes
//! it: the complement of the ones'-complement sum of the 16-bit big-endian
//! words of the data, the checksum field itself left out.
use vstd::prelude::*;
use vstd::arithmetic::div_mod::{lemma_fundamental_div_mod, lemma_mod_multiples_vanish};

verus! {

/// Word number `i` of `data`, big-endian; a last odd byte is the high byte of
/// its word.
pub open spec fn be_word(data: Seq<u8>, i: int) -> nat {
    if 0 <= i && 2 * i + 1 < data.len() {
        data[2 * i] as nat * 256 + data[2 * i + 1] as nat
    } else if 0 <= i && 2 * i < data.len() {
        data[2 * i] as nat * 256
    } else {
        0
    }
}

/// The sum of the first `n` words of `data`, word number `skip` left out.
pub open spec fn word_sum(data: Seq<u8>, skip: int, n: nat) -> nat
    decreases n,
{
    if n == 0 {
        0
    } else {
        word_sum(data, skip, (n - 1) as nat) + if n - 1 == skip {
            0
        } else {
            be_word(data, n - 1)
        }
    }
}

/// The sum of all the words of `data`, word number `skip` left out (none is
/// when `skip` is negative).
pub open spec fn be_word_sum(data: Seq<u8>, skip: int) -> nat {
    word_sum(data, skip, ((data.len() + 1) / 2) as nat)
}

/// One folding step makes a sum of 0x10000 or more smaller, keeps it modulo
/// 0xffff and keeps it above 0.
pub proof fn lemma_fold_step(s: nat)
    requires
        s >= 65536,
    ensures
        s / 65536 + s % 65536 < s,
        (s / 65536 + s % 65536) % 65535 == s % 65535,
        s / 65536 + s % 65536 > 0,
{
    lemma_fundamental_div_mod(s as int, 65536);
    let q = s / 65536;
    let r = s % 65536;
    assert(q >= 1);
    assert(s == 65535 * q + (q + r));
    lemma_mod_multiples_vanish(q as int, (q + r) as int, 65535);
}

/// A sum with its carries added back into its low 16 bits, again and again,
/// until it fits in 16 bits.
pub open spec fn fold_carries(s: nat) -> nat
    decreases s,
{
    if s < 65536 {
        s
    } else {
        proof {
            lemma_fold_step(s);
        }
        fold_carries(s / 65536 + s % 65536)
    }
}

/// The checksum for a sum of words: the complement of its folded value.
pub open spec fn complement(s: nat) -> u16 {
    (65535 - fold_carries(s)) as u16
}

/// The checksum of `data` with word number `skip` (the checksum field) left
/// out; 0 for no data.
pub open spec fn internet_checksum(data: Seq<u8>, skip: int) -> u16 {
    if data.len() == 0 {
        0
    } else {
        complement(be_word_sum(data, skip))
    }
}

/// The checked sum of data whose checksum field is filled in: `extra` (a
/// pseudo-header's sum, or 0) and all the words folded. It is 0xffff exactly
/// when the checksum is right.
pub open spec fn folded_total(data: Seq<u8>, extra: nat) -> nat {
    fold_carries(extra + be_word_sum(data, -1))
}

/// Folding keeps the value modulo 0xffff, gives at most 0xffff and gives 0
/// only for 0.
pub proof fn lemma_fold_carries(s: nat)
    ensures
        fold_carries(s) < 65536,
        fold_carries(s) % 65535 == s % 65535,
        s > 0 ==> fold_carries(s) > 0,
    decreases s,
{
    if s >= 65536 {
        lemma_fold_step(s);
        lemma_fold_carries(s / 65536 + s % 65536);
    }
}

/// Writing `w` (below 0x10000) as word number `k` adds `w` to the sum that
/// leaves word `k` out.
proof fn lemma_word_sum_filled(data: Seq<u8>, k: int, w: nat, n: nat)
    requires
        0 <= k,
        2 * k + 1 < data.len(),
        w < 65536,
    ensures
        ({
            let d2 = data.update(2 * k, (w / 256) as u8).update(2 * k + 1, (w % 256) as u8);
            word_sum(d2, -1, n) == word_sum(data, k, n) + if n > k { w } else { 0 }
        }),
    decreases n,
{
    let d2 = data.update(2 * k, (w / 256) as u8).update(2 * k + 1, (w % 256) as u8);
    if n > 0 {
        lemma_word_sum_filled(data, k, w, (n - 1) as nat);
        let i = n - 1;
        if i == k {
            assert(be_word(d2, i) == w);
        } else {
            assert(be_word(d2, i) == be_word(data, i));
        }
    }
}

/// The checksum of a sum of words, added to that sum, folds to 0xffff.
proof fn lemma_complement_closes(s: nat)
    ensures
        fold_carries((s + complement(s)) as nat) == 65535,
{
    lemma_fold_carries(s);
    let f = fold_carries(s);
    let t: nat = (s + 65535 - f) as nat;
    assert(complement(s) == 65535 - f);
    assert((s + complement(s)) as nat == t);
    lemma_fold_carries(t);
    if s == 0 {
        assert(t == 65535);
    } else {
        assert(t >= 65535);
        lemma_fundamental_div_mod(s as int, 65535);
        lemma_fundamental_div_mod(f as int, 65535);
        let m = s % 65535;
        assert(t == 65535 * (s / 65535 - f / 65535 + 1) + 0);
        lemma_mod_multiples_vanish(s / 65535 - f / 65535 + 1, 0, 65535);
        assert(t % 65535 == 0);
        let g = fold_carries(t);
        assert(0 < g < 65536 && g % 65535 == 0);
        lemma_fundamental_div_mod(g as int, 65535);
        assert(g == 65535);
    }
}

/// Law: data with its checksum field (word `k`) filled in with the checksum of
/// `extra` and the other words checks out: its folded total is 0xffff.
pub proof fn law_filled_checksum_checks(data: Seq<u8>, k: int, extra: nat)
    requires
        0 <= k,
        2 * k + 1 < data.len(),
    ensures
        ({
            let c = complement(extra + be_word_sum(data, k));
            folded_total(data.update(2 * k, (c / 256) as u8).update(2 * k + 1, (c % 256) as u8), extra) == 65535
        }),
{
    let s = extra + be_word_sum(data, k);
    let c = complement(s);
    lemma_fold_carries(s);
    let n = ((data.len() + 1) / 2) as nat;
    lemma_word_sum_filled(data, k, c as nat, n);
    let d2 = data.update(2 * k, (c / 256) as u8).update(2 * k + 1, (c % 256) as u8);
    assert(be_word_sum(d2, -1) == be_word_sum(data, k) + c);
    lemma_complement_closes(s);
}

} // verus!
