//! Bookkeeping of ping and traceroute replies: which probe a reply answers, how
//! long it took, and in which order traceroute hops are reported.
use vstd::prelude::*;
use std::collections::HashMap;
use crate::ipv4::{Ipv4, ipv4_text, ipv4_to_string};
use crate::frames::IcmpResponse;
use crate::text::{decimal, decimal_string, pad_right, push_padded, push_str};

verus! {

/// A traceroute reply that waits for the hops before it to be reported.
#[derive(Clone, Copy, Debug, PartialEq, Eq, Structural)]
pub struct StashedReply {
    /// The address that answered.
    pub addr: Ipv4,
    /// When the probe with this TTL was sent (nanoseconds).
    pub sent_at: u128,
    /// The reply came from the target itself: the trace ends with it.
    pub is_final: bool,
    /// When the reply arrived (nanoseconds).
    pub rx_time: u128,
}

/// One reported traceroute hop.
#[derive(Clone, Copy, Debug, PartialEq, Eq, Structural)]
pub struct HopLine {
    pub ttl: u8,
    pub addr: Ipv4,
    /// When the probe was sent (nanoseconds).
    pub sent_at: u128,
    /// When its reply arrived (nanoseconds).
    pub rx_time: u128,
}

/// What a traceroute reply leads to.
#[derive(Debug)]
pub struct TraceStep {
    /// Hops that can now be reported, in the order to report them.
    pub lines: Vec<HopLine>,
    /// The target answered among these hops: the trace is complete.
    pub finished: bool,
    /// As many replies as probes have been counted: stop listening.
    pub all_received: bool,
}

/// Reports the stashed replies from TTL `next` on, as long as there is one for
/// each TTL in turn, stopping after the reply from the target. Gives the stash
/// left behind, the next TTL to report, the reported hops and whether the
/// target was reached.
pub open spec fn drain(stash: Seq<Option<StashedReply>>, next: int) -> (
    Seq<Option<StashedReply>>,
    int,
    Seq<HopLine>,
    bool,
)
    decreases stash.len() - next,
{
    if 0 <= next < stash.len() && stash[next] is Some {
        let e = stash[next].unwrap();
        let line = HopLine { ttl: next as u8, addr: e.addr, sent_at: e.sent_at, rx_time: e.rx_time };
        let rest = stash.update(next, None);
        if e.is_final {
            (rest, next + 1, seq![line], true)
        } else {
            let (s, n, ls, fin) = drain(rest, next + 1);
            (s, n, seq![line] + ls, fin)
        }
    } else {
        (stash, next, seq![], false)
    }
}

/// Draining reports consecutive TTLs starting at `next`, and moves `next` past
/// them.
pub proof fn lemma_drain_consecutive(stash: Seq<Option<StashedReply>>, next: int)
    requires
        1 <= next,
        stash.len() <= 256,
    ensures
        ({
            let (s, n, ls, fin) = drain(stash, next);
            &&& n == next + ls.len()
            &&& forall|i: int| 0 <= i < ls.len() ==> ls[i].ttl == next + i
            &&& s.len() == stash.len()
            &&& (fin ==> ls.len() > 0)
        }),
    decreases stash.len() - next,
{
    if 0 <= next < stash.len() && stash[next] is Some {
        let e = stash[next].unwrap();
        let rest = stash.update(next, None);
        if !e.is_final {
            lemma_drain_consecutive(rest, next + 1);
            let (s, n, ls, fin) = drain(rest, next + 1);
            let line = HopLine { ttl: next as u8, addr: e.addr, sent_at: e.sent_at, rx_time: e.rx_time };
            assert forall|i: int| 0 <= i < ls.len() + 1 implies (seq![line] + ls)[i].ttl == next + i by {
                if i > 0 {
                    assert((seq![line] + ls)[i] == ls[i - 1]);
                }
            }
        }
    }
}

/// Hop `i` of a report from TTL `next` on is `line`: the reply stashed for TTL
/// `next + i`, and not a final one unless it is the last hop (of `count`).
pub open spec fn hop_from_stash(stash: Seq<Option<StashedReply>>, next: int, i: int, count: int, line: HopLine) -> bool {
    &&& next + i < stash.len()
    &&& stash[next + i] is Some
    &&& line == (HopLine {
        ttl: (next + i) as u8,
        addr: stash[next + i].unwrap().addr,
        sent_at: stash[next + i].unwrap().sent_at,
        rx_time: stash[next + i].unwrap().rx_time,
    })
    &&& (i < count - 1 ==> !stash[next + i].unwrap().is_final)
}

/// The hops `ls` are the replies stashed for the TTLs from `next` on, one TTL
/// after the other, none of them final but maybe the last.
pub open spec fn hops_from_stash(stash: Seq<Option<StashedReply>>, next: int, ls: Seq<HopLine>) -> bool {
    forall|i: int| 0 <= i < ls.len() ==> hop_from_stash(stash, next, i, ls.len() as int, #[trigger] ls[i])
}

/// What draining reports, stated on the stash itself: each reported hop is the
/// reply stashed for its TTL; no hop is reported after a final reply, and the
/// report is finished exactly when its last hop is a final reply; an unfinished
/// report stops at the first TTL with no reply; reported slots are emptied and
/// the others kept.
pub proof fn lemma_drain_reports(stash: Seq<Option<StashedReply>>, next: int)
    requires
        1 <= next,
        stash.len() <= 256,
    ensures
        hops_from_stash(stash, next, drain(stash, next).2),
        drain(stash, next).3 <==> (drain(stash, next).2.len() > 0 && stash[next + drain(stash, next).2.len()
            - 1].unwrap().is_final),
        !drain(stash, next).3 ==> !(next + drain(stash, next).2.len() < stash.len() && stash[next + drain(
            stash,
            next,
        ).2.len()] is Some),
        drain(stash, next).0.len() == stash.len(),
        forall|t: int|
            0 <= t < stash.len() ==> #[trigger] drain(stash, next).0[t] == if next <= t < next + drain(
                stash,
                next,
            ).2.len() {
                None
            } else {
                stash[t]
            },
    decreases stash.len() - next,
{
    if 0 <= next < stash.len() && stash[next] is Some {
        let e = stash[next].unwrap();
        let rest = stash.update(next, None);
        let line = HopLine { ttl: next as u8, addr: e.addr, sent_at: e.sent_at, rx_time: e.rx_time };
        if !e.is_final {
            lemma_drain_reports(rest, next + 1);
            let ls = drain(rest, next + 1).2;
            let all = seq![line] + ls;
            assert(drain(stash, next).2 == all);
            assert(hops_from_stash(rest, next + 1, ls));
            assert forall|i: int| 0 <= i < all.len() implies hop_from_stash(stash, next, i, all.len() as int, #[trigger] all[i]) by {
                if i > 0 {
                    assert(all[i] == ls[i - 1]);
                    assert(hop_from_stash(rest, next + 1, i - 1, ls.len() as int, ls[i - 1]));
                    assert(rest[next + 1 + (i - 1)] == stash[next + i]);
                }
            }
            assert(hops_from_stash(stash, next, all));
            if ls.len() > 0 {
                assert(hop_from_stash(rest, next + 1, ls.len() - 1, ls.len() as int, ls[ls.len() - 1]));
                assert(rest[next + 1 + ls.len() - 1] == stash[next + all.len() - 1]);
            }
        } else {
            assert(drain(stash, next) == (rest, next + 1, seq![line], true));
            assert(seq![line][0] == line);
            assert(hops_from_stash(stash, next, seq![line]));
        }
    } else {
        assert(hops_from_stash(stash, next, drain(stash, next).2));
    }
}

/// The traceroute reply bookkeeping: probes with TTL 1, 2, ... were sent at the
/// times in `sent_at`; replies may arrive in any order, and hops are reported in
/// TTL order.
pub struct TraceTracker {
    sent_at: Vec<u128>,
    target: Ipv4,
    next_ttl: u16,
    stash: HashMap<u8, StashedReply>,
    received: usize,
}

/// The replies held in `m` for the TTLs `0..n`, one slot per TTL.
pub open spec fn slots(m: Map<u8, StashedReply>, n: nat) -> Seq<Option<StashedReply>> {
    Seq::new(n, |t: int| if m.contains_key(t as u8) { Some(m[t as u8]) } else { None })
}

impl TraceTracker {
    /// The stash has a slot for each TTL, the report counter is in range and
    /// no stashed reply arrived before its probe was sent.
    pub closed spec fn well_formed(self) -> bool {
        &&& self.sent_at@.len() <= 255
        &&& 1 <= self.next_ttl <= self.sent_at@.len() + 1
        &&& self.received <= self.sent_at@.len()
        &&& forall|t: u8| #[trigger] self.stash@.contains_key(t) && self.stash@[t].is_final ==> self.stash@[t].addr
            == self.target
    }

    /// When each probe was sent; the probe with TTL `t` is at `t - 1`.
    pub closed spec fn sent_times(self) -> Seq<u128> {
        self.sent_at@
    }

    /// The address the trace is meant to reach.
    pub closed spec fn target_spec(self) -> Ipv4 {
        self.target
    }

    /// The next TTL to report.
    pub closed spec fn next_ttl_spec(self) -> u16 {
        self.next_ttl
    }

    /// The replies waiting to be reported, indexed by TTL.
    pub closed spec fn stash_spec(self) -> Seq<Option<StashedReply>> {
        slots(self.stash@, (self.sent_at@.len() + 1) as nat)
    }

    /// The number of replies counted so far.
    pub closed spec fn received_spec(self) -> nat {
        self.received as nat
    }

    /// Starts the bookkeeping for probes sent at `sent_at` (TTL 1 first) towards
    /// `target`. At most 255 probes: a TTL is a byte.
    pub fn new(sent_at: Vec<u128>, target: Ipv4) -> (t: Self)
        requires
            sent_at@.len() <= 255,
        ensures
            t.sent_times() == sent_at@,
            t.target_spec() == target,
            t.next_ttl_spec() == 1,
            t.stash_spec() == Seq::new((sent_at@.len() + 1) as nat, |i: int| None::<StashedReply>),
            t.received_spec() == 0,
            t.well_formed(),
    {
        let stash: HashMap<u8, StashedReply> = HashMap::new();
        let t = TraceTracker { sent_at, target, next_ttl: 1, stash, received: 0 };
        assert(t.stash_spec() =~= Seq::new((t.sent_at@.len() + 1) as nat, |i: int| None::<StashedReply>));
        t
    }

    /// The next TTL to report (shown with `*` when the wait runs out).
    pub fn next_ttl(&self) -> (t: u16)
        ensures
            t == self.next_ttl_spec(),
    {
        self.next_ttl
    }

    /// Takes a reply to the probe with sequence number (TTL) `seq` from `src`,
    /// received at `rx_time`; `is_final` tells that it is an echo reply. A reply
    /// to no probe (sequence number 0, or past the last probe) is ignored: nothing
    /// changes. A reply to a probe is stashed (replacing an
    /// earlier one with the same TTL) and counted, and then the stashed replies
    /// are reported in TTL order for as long as none is missing; the report ends
    /// early with a final reply from the target itself.
    pub fn on_reply(&mut self, seq: u16, src: Ipv4, is_final: bool, rx_time: u128) -> (step:
        TraceStep)
        requires
            old(self).well_formed(),
            old(self).received_spec() < old(self).sent_times().len() || old(self).sent_times().len() == 0,
        ensures
            final(self).well_formed(),
            final(self).sent_times() == old(self).sent_times(),
            final(self).target_spec() == old(self).target_spec(),
            seq == 0 || seq > old(self).sent_times().len() ==> {
                &&& *final(self) == *old(self)
                &&& step.lines@.len() == 0
                &&& !step.finished
                &&& !step.all_received
            },
            1 <= seq <= old(self).sent_times().len() ==> {
                let entry = StashedReply {
                    addr: src,
                    sent_at: old(self).sent_times()[seq - 1],
                    is_final: is_final && src == old(self).target_spec(),
                    rx_time,
                };
                let (s, n, ls, fin) = drain(
                    old(self).stash_spec().update(seq as int, Some(entry)),
                    old(self).next_ttl_spec() as int,
                );
                &&& final(self).stash_spec() == s
                &&& final(self).next_ttl_spec() == n
                &&& step.lines@ == ls
                &&& step.finished == fin
                &&& final(self).received_spec() == old(self).received_spec() + 1
                &&& step.all_received == (!fin && final(self).received_spec() >= old(self).sent_times().len())
            },
            // The same report, stated on the stash: each reported hop is the reply
            // stashed for its TTL; the trace ends at the target's final reply and
            // nothing is reported after it; a report that does not end stops at
            // the first TTL with no reply; reported slots are emptied.
            1 <= seq <= old(self).sent_times().len() ==> {
                let entry = StashedReply {
                    addr: src,
                    sent_at: old(self).sent_times()[seq - 1],
                    is_final: is_final && src == old(self).target_spec(),
                    rx_time,
                };
                let stash0 = old(self).stash_spec().update(seq as int, Some(entry));
                let next = old(self).next_ttl_spec() as int;
                let k = step.lines@.len() as int;
                // Hop `i` is TTL `next + i`, and its slot held exactly its reply,
                // a final one only for the last hop of a finished step.
                &&& next + k <= stash0.len()
                &&& forall|i: int| 0 <= i < k ==> (#[trigger] step.lines@[i]).ttl == (next + i) as u8
                &&& forall|i: int| 0 <= i < k ==> stash0[next + i] == Some(StashedReply {
                    addr: (#[trigger] step.lines@[i]).addr,
                    sent_at: step.lines@[i].sent_at,
                    is_final: step.finished && i == k - 1,
                    rx_time: step.lines@[i].rx_time,
                })
                // A finished trace ends with a hop from the target.
                &&& step.finished ==> k > 0 && step.lines@[k - 1].addr == old(self).target_spec()
                // An unfinished report stops at the first TTL with no reply.
                &&& !step.finished ==> !(next + k < stash0.len() && stash0[next + k] is Some)
                // Reported slots are emptied, the others kept.
                &&& final(self).stash_spec().len() == stash0.len()
                &&& forall|t: int| 0 <= t < stash0.len() ==> #[trigger] final(self).stash_spec()[t] == if next <= t
                    < next + k {
                    None
                } else {
                    stash0[t]
                }
            },
            // Hops come out in TTL order, one TTL after the other, and the next
            // TTL to report moves past them.
            final(self).next_ttl_spec() == old(self).next_ttl_spec() + step.lines@.len(),
            forall|i: int| 0 <= i < step.lines@.len() ==> step.lines@[i].ttl == old(self).next_ttl_spec() + i,
    {
        let count = self.sent_at.len();
        if seq == 0 || (seq as usize) > count {
            return TraceStep { lines: Vec::new(), finished: false, all_received: false };
        }
        let idx = (seq - 1) as usize;
        let entry = StashedReply {
            addr: src,
            sent_at: self.sent_at[idx],
            is_final: is_final && src == self.target,
            rx_time,
        };
        broadcast use vstd::std_specs::hash::group_hash_axioms;
        let ghost n1: nat = (count + 1) as nat;
        let ghost stash0 = slots(self.stash@, n1).update(seq as int, Some(entry));
        let ghost next0 = self.next_ttl as int;
        self.stash.insert(seq as u8, entry);
        self.received = self.received + 1;
        assert(slots(self.stash@, n1) =~= stash0);
        proof {
            lemma_drain_consecutive(stash0, next0);
            lemma_drain_reports(stash0, next0);
        }
        let mut lines: Vec<HopLine> = Vec::new();
        let mut finished = false;
        loop
            invariant_except_break
                !finished,
                ({
                    let (s, n, ls, fin) = drain(slots(self.stash@, n1), self.next_ttl as int);
                    drain(stash0, next0) == (s, n, lines@ + ls, fin)
                }),
            invariant
                self.sent_at@ == old(self).sent_at@,
                self.target == old(self).target,
                self.received == old(self).received + 1,
                forall|u: u8| #[trigger] self.stash@.contains_key(u) && self.stash@[u].is_final ==> self.stash@[u].addr
                    == self.target,
                n1 == count + 1,
                count <= 255,
                count == self.sent_at@.len(),
                1 <= next0 <= self.next_ttl,
                self.received <= count,
                self.next_ttl == next0 + lines@.len(),
            ensures
                self.sent_at@ == old(self).sent_at@,
                self.target == old(self).target,
                self.received == old(self).received + 1,
                forall|u: u8| #[trigger] self.stash@.contains_key(u) && self.stash@[u].is_final ==> self.stash@[u].addr
                    == self.target,
                finished ==> drain(stash0, next0) == (slots(self.stash@, n1), self.next_ttl as int, lines@, true),
                !finished ==> drain(stash0, next0) == (slots(self.stash@, n1), self.next_ttl as int, lines@, false),
                1 <= self.next_ttl,
                self.received <= count,
                self.next_ttl == next0 + lines@.len(),
            decreases n1 - self.next_ttl,
        {
            let t = self.next_ttl as usize;
            if t > count {
                break;
            }
            let ghost before = slots(self.stash@, n1);
            let ghost map_before = self.stash@;
            let key = t as u8;
            assert(key as int == t);
            match self.stash.remove(&key) {
                None => {
                    assert(self.stash@ =~= map_before);
                    assert(before[t as int] is None);
                    break;
                },
                Some(e) => {
                    let ghost lines_before = lines@;
                    assert(before[t as int] == Some(e));
                    assert(slots(self.stash@, n1) =~= before.update(t as int, None));
                    let line = HopLine { ttl: self.next_ttl as u8, addr: e.addr, sent_at: e.sent_at, rx_time: e.rx_time };
                    lines.push(line);
                    proof {
                        let (s, n, ls, fin) = drain(slots(self.stash@, n1), t + 1);
                        assert(drain(before, t as int) == if e.is_final {
                            (slots(self.stash@, n1), t + 1, seq![line], true)
                        } else {
                            (s, n, seq![line] + ls, fin)
                        });
                        if !e.is_final {
                            assert(lines_before + (seq![line] + ls) =~= lines@ + ls);
                        } else {
                            assert(lines_before + seq![line] =~= lines@);
                        }
                    }
                    self.next_ttl = self.next_ttl + 1;
                    if e.is_final {
                        finished = true;
                        break;
                    }
                },
            }
        }
        proof {
            let k = lines@.len() as int;
            let ls0 = drain(stash0, next0).2;
            assert(ls0 == lines@);
            assert(hops_from_stash(stash0, next0, lines@));
            assert forall|i: int| 0 <= i < k implies stash0[next0 + i] == Some(StashedReply {
                addr: (#[trigger] lines@[i]).addr,
                sent_at: lines@[i].sent_at,
                is_final: finished && i == k - 1,
                rx_time: lines@[i].rx_time,
            }) && lines@[i].ttl == (next0 + i) as u8 by {
                assert(hop_from_stash(stash0, next0, i, k, lines@[i]));
            }
            if k > 0 {
                assert(hop_from_stash(stash0, next0, k - 1, k, lines@[k - 1]));
            }
            if finished {
                let idx = next0 + k - 1;
                assert(lines@[k - 1].ttl == (next0 + (k - 1)) as u8);
                assert(0 <= idx < n1);
                if idx != seq as int {
                    assert(stash0[idx] == slots(old(self).stash@, n1)[idx]);
                    assert(old(self).stash@.contains_key(idx as u8));
                }
            }
        }
        let all_received = !finished && self.received >= count;
        TraceStep { lines, finished, all_received }
    }
}

/// What a ping reply leads to.
#[derive(Clone, Copy, Debug, PartialEq, Eq, Structural)]
pub enum PingLine {
    /// An echo reply to probe `seq`, `elapsed` nanoseconds after it was sent.
    Reply { seq: u16, src: Ipv4, elapsed: u128 },
    /// A time-exceeded answer to probe `seq`: shown with `*`.
    Expired { seq: u16, src: Ipv4 },
    /// A sequence number that matches no probe that was sent.
    OutOfRange { seq: u16 },
}

/// Decides how a ping reply is reported, given when each probe was sent
/// (sequence number `s` at `s - 1`). A sequence number that is 0 or past the
/// probes sent matches no probe.
pub fn ping_reply_line(start_times: &Vec<u128>, seq: u16, src: Ipv4, is_timeout: bool, rx_time: u128) -> (line: PingLine)
    requires
        1 <= seq <= start_times@.len() && !is_timeout ==> start_times@[seq - 1] <= rx_time,
    ensures
        seq == 0 || seq > start_times@.len() ==> line == (PingLine::OutOfRange { seq }),
        1 <= seq <= start_times@.len() && is_timeout ==> line == (PingLine::Expired { seq, src }),
        1 <= seq <= start_times@.len() && !is_timeout ==> line == (PingLine::Reply {
            seq,
            src,
            elapsed: (rx_time - start_times@[seq - 1]) as u128,
        }),
{
    if seq == 0 || (seq as usize) > start_times.len() {
        return PingLine::OutOfRange { seq };
    }
    let idx = (seq - 1) as usize;
    if is_timeout {
        PingLine::Expired { seq, src }
    } else {
        PingLine::Reply { seq, src, elapsed: rx_time - start_times[idx] }
    }
}

/// The sequence numbers from 1 to `count`, in increasing order, that are not
/// in `answered`: the probes that got no reply.
pub open spec fn unanswered_spec(count: nat, answered: Seq<u16>) -> Seq<u16>
    decreases count,
{
    if count == 0 {
        seq![]
    } else {
        let prev = unanswered_spec((count - 1) as nat, answered);
        if answered.contains(count as u16) {
            prev
        } else {
            prev.push(count as u16)
        }
    }
}

/// Law: the probes reported as unanswered are exactly those from 1 to `count`
/// that no reply answered, each once, in increasing order.
pub proof fn law_unanswered_members(count: nat, answered: Seq<u16>)
    requires
        count <= 65535,
    ensures
        ({
            let r = unanswered_spec(count, answered);
            &&& forall|i: int, j: int| 0 <= i < j < r.len() ==> r[i] < r[j]
            &&& forall|s: u16| r.contains(s) <==> (1 <= s <= count && !answered.contains(s))
        }),
    decreases count,
{
    if count > 0 {
        let prev = unanswered_spec((count - 1) as nat, answered);
        law_unanswered_members((count - 1) as nat, answered);
        let r = unanswered_spec(count, answered);
        let c = count as u16;
        assert forall|s: u16| r.contains(s) <==> (1 <= s <= count && !answered.contains(s)) by {
            if !answered.contains(c) {
                assert(r == prev.push(c));
                if r.contains(s) {
                    let k = choose|k: int| 0 <= k < r.len() && r[k] == s;
                    if k < prev.len() {
                        assert(prev.contains(s));
                    }
                }
                if s == c {
                    assert(r[r.len() - 1] == s);
                } else if prev.contains(s) {
                    let k = choose|k: int| 0 <= k < prev.len() && prev[k] == s;
                    assert(r[k] == s);
                }
            }
        }
        if !answered.contains(c) {
            assert forall|i: int, j: int| 0 <= i < j < r.len() implies r[i] < r[j] by {
                if j == r.len() - 1 {
                    assert(prev.contains(prev[i]));
                }
            }
        }
    }
}

/// The probes of a ping, numbered 1 to `count`, that no reply answered in
/// `answered`; each is reported with `*` when the wait runs out.
pub fn unanswered(count: u16, answered: &Vec<u16>) -> (r: Vec<u16>)
    ensures
        r@ == unanswered_spec(count as nat, answered@),
{
    let mut r: Vec<u16> = Vec::new();
    let mut s: u16 = 0;
    while s < count
        invariant
            s <= count,
            r@ == unanswered_spec(s as nat, answered@),
        decreases count - s,
    {
        s = s + 1;
        let mut found = false;
        let mut j: usize = 0;
        while j < answered.len()
            invariant
                j <= answered@.len(),
                found <==> exists|k: int| 0 <= k < j && answered@[k] == s,
            decreases answered@.len() - j,
        {
            if answered[j] == s {
                found = true;
            }
            j = j + 1;
        }
        if !found {
            r.push(s);
        }
    }
    r
}

/// What the capture of a ping or a traceroute hands on of an ICMP reply.
#[derive(Clone, Copy, Debug, PartialEq, Eq, Structural)]
pub struct CapturedReply {
    pub seq: u16,
    pub src: Ipv4,
    /// The reply ends the probing (an echo reply; for a ping, any reply).
    pub is_final: bool,
    /// The probe's time ran out on the way (a time-exceeded answer).
    pub is_timeout: bool,
}

/// What the capture hands on of a parsed reply: an echo reply is final and no
/// timeout; a time-exceeded answer is a timeout, and final for a ping but not
/// for a traceroute.
pub open spec fn captured_reply_spec(resp: IcmpResponse, tracing: bool) -> CapturedReply {
    match resp {
        IcmpResponse::EchoReply { seq, src } => CapturedReply { seq, src, is_final: true, is_timeout: false },
        IcmpResponse::TimeExceeded { seq, src } => CapturedReply {
            seq,
            src,
            is_final: !tracing,
            is_timeout: true,
        },
    }
}

/// Turns a parsed reply into what the capture hands on (see
/// `captured_reply_spec`).
pub fn captured_reply(resp: IcmpResponse, tracing: bool) -> (r: CapturedReply)
    ensures
        r == captured_reply_spec(resp, tracing),
{
    match resp {
        IcmpResponse::EchoReply { seq, src } => CapturedReply { seq, src, is_final: true, is_timeout: false },
        IcmpResponse::TimeExceeded { seq, src } => CapturedReply {
            seq,
            src,
            is_final: !tracing,
            is_timeout: true,
        },
    }
}

/// The capture filter of ping and traceroute: echo replies and time-exceeded
/// answers.
pub fn echo_capture_filter() -> (f: String)
    ensures
        f@ == "icmp and (icmp[icmptype] = icmp-echoreply or icmp[icmptype] = 11)"@,
{
    let mut f = String::new();
    push_str(&mut f, "icmp and (icmp[icmptype] = icmp-echoreply or icmp[icmptype] = 11)");
    assert(f@ =~= "icmp and (icmp[icmptype] = icmp-echoreply or icmp[icmptype] = 11)"@);
    f
}


/// The start of a reply line of ping and traceroute: the sequence number (or
/// TTL) padded to 3 and the address that answered padded to 16, each followed
/// by a space; the time it took follows.
pub open spec fn reply_prefix_text(n: u16, addr: Ipv4) -> Seq<char> {
    pad_right(decimal(n as nat), 3) + " "@ + pad_right(ipv4_text(addr), 16) + " "@
}

/// Builds the start of a reply line (see `reply_prefix_text`).
pub fn reply_prefix(n: u16, addr: Ipv4) -> (s: String)
    ensures
        s@ == reply_prefix_text(n, addr),
{
    let mut s = String::new();
    let d = decimal_string(n as u64);
    push_padded(&mut s, d.as_str(), 3);
    push_str(&mut s, " ");
    let a = ipv4_to_string(addr);
    push_padded(&mut s, a.as_str(), 16);
    push_str(&mut s, " ");
    assert(s@ =~= reply_prefix_text(n, addr));
    s
}

/// The line of a probe whose time ran out on the way: the reply prefix, then `*`.
pub fn expired_line(n: u16, addr: Ipv4) -> (s: String)
    ensures
        s@ == reply_prefix_text(n, addr) + "*"@,
{
    let mut s = reply_prefix(n, addr);
    push_str(&mut s, "*");
    s
}

/// The line of a probe that got no answer at all: its number, then `*`.
pub fn silent_line(n: u16) -> (s: String)
    ensures
        s@ == decimal(n as nat) + " *"@,
{
    let mut s = decimal_string(n as u64);
    push_str(&mut s, " *");
    s
}

} // verus!
