//! The decisions of the `scan` subcommand: which probe runs, which source
//! address and next hop a probe uses, how long replies are awaited, which
//! replies are reported, and the lines that report them.
use vstd::prelude::*;
use std::collections::{HashMap, HashSet};
use crate::error::NtkError;
use crate::ipv4::{Ipv4, ipv4_text, ipv4_to_string, push_ipv4, in_network, net_contains};
use crate::text::{decimal, push_decimal, push_str};

verus! {

/// Which kind of scan runs.
#[derive(Clone, Copy, Debug, PartialEq, Eq, Structural)]
pub enum ScanMode {
    /// A full TCP connection per port.
    FullHandshake,
    /// ACK probes, or FIN probes when `fin` is set; resets are reported.
    AckProbe { fin: bool },
    /// SYN probes; open ports are reported, and resets too when `show_reset` is set.
    SynProbe { show_reset: bool },
}

/// The scan that the flags of the `scan` subcommand ask for: a full handshake
/// wins, then an ACK probe (a FIN probe also runs as an ACK-style probe), else
/// a SYN probe.
pub open spec fn scan_mode_spec(full_handshake: bool, ack_probe: bool, fin_probe: bool, reset: bool) -> ScanMode {
    if full_handshake {
        ScanMode::FullHandshake
    } else if ack_probe || fin_probe {
        ScanMode::AckProbe { fin: fin_probe }
    } else {
        ScanMode::SynProbe { show_reset: reset }
    }
}

/// Picks the scan to run (see `scan_mode_spec`).
pub fn scan_mode(full_handshake: bool, ack_probe: bool, fin_probe: bool, reset: bool) -> (m: ScanMode)
    ensures
        m == scan_mode_spec(full_handshake, ack_probe, fin_probe, reset),
{
    if full_handshake {
        ScanMode::FullHandshake
    } else if ack_probe || fin_probe {
        ScanMode::AckProbe { fin: fin_probe }
    } else {
        ScanMode::SynProbe { show_reset: reset }
    }
}

/// Whether `ip` is one of `addrs`.
fn holds_address(addrs: &Vec<Ipv4>, ip: Ipv4) -> (r: bool)
    ensures
        r == addrs@.contains(ip),
{
    let mut i: usize = 0;
    while i < addrs.len()
        invariant
            i <= addrs@.len(),
            forall|j: int| 0 <= j < i ==> addrs@[j] != ip,
        decreases addrs@.len() - i,
    {
        if addrs[i] == ip {
            return true;
        }
        i = i + 1;
    }
    false
}

/// Checks the source address that the route to the target gave against the
/// IPv4 addresses of the chosen interface: it is kept when the interface has
/// it, else the interface's first address is used; an interface without any
/// IPv4 address is an `IpIfAssociationError` naming the source address.
pub fn validate_source_ip(interface_addrs: &Vec<Ipv4>, source_ip: Ipv4) -> (r: Result<Ipv4, NtkError>)
    ensures
        interface_addrs@.contains(source_ip) ==> r == Ok::<Ipv4, NtkError>(source_ip),
        !interface_addrs@.contains(source_ip) && interface_addrs@.len() > 0 ==> r == Ok::<
            Ipv4,
            NtkError,
        >(interface_addrs@[0]),
        interface_addrs@.len() == 0 ==> (r matches Err(NtkError::IpIfAssociationError(s)) && s@
            == ipv4_text(source_ip)),
{
    if holds_address(interface_addrs, source_ip) {
        Ok(source_ip)
    } else if interface_addrs.len() > 0 {
        Ok(interface_addrs[0])
    } else {
        Err(NtkError::IpIfAssociationError(ipv4_to_string(source_ip)))
    }
}

/// The capture filter of a probe scan: TCP from the target to the probes'
/// source port that carries SYN and ACK together, or RST.
pub open spec fn bpf_filter_text(target_ip: Ipv4, source_port: u16) -> Seq<char> {
    "tcp and src host "@ + ipv4_text(target_ip) + " and dst port "@ + decimal(source_port as nat)
        + " and (tcp[tcpflags] & (tcp-syn|tcp-ack) == (tcp-syn|tcp-ack) or tcp[tcpflags] & tcp-rst != 0)"@
}

/// Builds the capture filter of a probe scan (see `bpf_filter_text`).
pub fn bpf_filter(target_ip: Ipv4, source_port: u16) -> (f: String)
    ensures
        f@ == bpf_filter_text(target_ip, source_port),
{
    let mut f = String::new();
    push_str(&mut f, "tcp and src host ");
    push_ipv4(&mut f, target_ip);
    push_str(&mut f, " and dst port ");
    push_decimal(&mut f, source_port as u64);
    push_str(
        &mut f,
        " and (tcp[tcpflags] & (tcp-syn|tcp-ack) == (tcp-syn|tcp-ack) or tcp[tcpflags] & tcp-rst != 0)",
    );
    proof {
        assert(f@ =~= bpf_filter_text(target_ip, source_port));
    }
    f
}

/// How long, in milliseconds, replies to a probe scan are captured: the time
/// the probes take to send (one delay per port) and then the timeout.
pub fn capture_duration_ms(port_count: u64, delay_ms: u64, timeout_seconds: u8) -> (ms: u128)
    requires
        port_count * delay_ms <= u64::MAX,
    ensures
        ms == port_count * delay_ms + timeout_seconds * 1000,
{
    let send = port_count * delay_ms;
    send as u128 + (timeout_seconds as u128) * 1000
}

/// The TCP flags carry both SYN and ACK.
pub open spec fn is_syn_ack(flags: u8) -> bool {
    flags & 0x12 == 0x12
}

/// The TCP flags carry RST.
pub open spec fn is_rst(flags: u8) -> bool {
    flags & 0x04 == 0x04
}

/// A reply worth reporting: the port it came from, and whether it answered
/// with SYN and ACK (else it was a reset).
#[derive(Clone, Copy, Debug, PartialEq, Eq, Structural)]
pub struct CapturedPacket {
    pub source_port: u16,
    pub is_syn_ack: bool,
}

/// What a SYN scan reports of a reply from `port`: SYN and ACK together
/// (an open port), else RST when resets are shown; nothing else.
pub open spec fn syn_reply_report(port: u16, flags: u8, show_reset: bool) -> Option<CapturedPacket> {
    if is_syn_ack(flags) {
        Some(CapturedPacket { source_port: port, is_syn_ack: true })
    } else if is_rst(flags) && show_reset {
        Some(CapturedPacket { source_port: port, is_syn_ack: false })
    } else {
        None
    }
}

/// What an ACK or FIN scan reports of a reply from `port`: resets only.
pub open spec fn ack_reply_report(port: u16, flags: u8) -> Option<CapturedPacket> {
    if is_rst(flags) {
        Some(CapturedPacket { source_port: port, is_syn_ack: false })
    } else {
        None
    }
}

/// What a probe scan reports of a reply from `port`, when no earlier reply
/// from that port was reported.
pub open spec fn reply_report(ack_scan: bool, show_reset: bool, port: u16, flags: u8) -> Option<CapturedPacket> {
    if ack_scan {
        ack_reply_report(port, flags)
    } else {
        syn_reply_report(port, flags, show_reset)
    }
}

/// Decides what a reply that reached the probes' source port from the target
/// reports, for a SYN scan (see `syn_reply_report`).
pub fn classify_syn_reply(port: u16, flags: u8, show_reset: bool) -> (r: Option<CapturedPacket>)
    ensures
        r == syn_reply_report(port, flags, show_reset),
        // SYN (0x02) and ACK (0x10) together: the port is open.
        flags & 0x02 != 0 && flags & 0x10 != 0 ==> r == Some(CapturedPacket { source_port: port, is_syn_ack: true }),
        // Otherwise RST (0x04): a reset, reported only when resets are shown.
        !(flags & 0x02 != 0 && flags & 0x10 != 0) && flags & 0x04 != 0 && show_reset ==> r == Some(
            CapturedPacket { source_port: port, is_syn_ack: false },
        ),
        !(flags & 0x02 != 0 && flags & 0x10 != 0) && (flags & 0x04 == 0 || !show_reset) ==> r is None,
{
    assert(flags & 0x12 == 0x12 <==> (flags & 0x02 != 0 && flags & 0x10 != 0)) by (bit_vector);
    assert(flags & 0x04 == 0x04 <==> flags & 0x04 != 0) by (bit_vector);
    if flags & 0x12 == 0x12 {
        Some(CapturedPacket { source_port: port, is_syn_ack: true })
    } else if flags & 0x04 == 0x04 && show_reset {
        Some(CapturedPacket { source_port: port, is_syn_ack: false })
    } else {
        None
    }
}

/// Decides what a reply that reached the probes' source port from the target
/// reports, for an ACK or FIN scan (see `ack_reply_report`).
pub fn classify_ack_reply(port: u16, flags: u8) -> (r: Option<CapturedPacket>)
    ensures
        r == ack_reply_report(port, flags),
        // Every reply with RST (0x04) set, whatever else it carries, is a reset
        // of its source port; any other reply reports nothing.
        flags & 0x04 != 0 ==> r == Some(CapturedPacket { source_port: port, is_syn_ack: false }),
        flags & 0x04 == 0 ==> r is None,
{
    assert(flags & 0x04 == 0x04 <==> flags & 0x04 != 0) by (bit_vector);
    if flags & 0x04 == 0x04 {
        Some(CapturedPacket { source_port: port, is_syn_ack: false })
    } else {
        None
    }
}

/// The replies of a probe scan as the capture sees them: each port is reported
/// at most once, the first time it gives a reply worth reporting.
pub struct ReplySieve {
    seen: HashSet<u16>,
    ack_scan: bool,
    show_reset: bool,
}

impl View for ReplySieve {
    type V = Set<u16>;

    /// The ports already reported.
    closed spec fn view(&self) -> Set<u16> {
        self.seen@
    }
}

impl ReplySieve {
    /// Whether this sieve is for an ACK or FIN scan.
    pub closed spec fn is_ack_scan(&self) -> bool {
        self.ack_scan
    }

    /// Whether resets are reported (SYN scans only).
    pub closed spec fn shows_reset(&self) -> bool {
        self.show_reset
    }

    /// A sieve that has reported nothing yet.
    pub fn new(ack_scan: bool, show_reset: bool) -> (s: Self)
        ensures
            s@ == Set::<u16>::empty(),
            s.is_ack_scan() == ack_scan,
            s.shows_reset() == show_reset,
    {
        ReplySieve { seen: HashSet::new(), ack_scan, show_reset }
    }

    /// Takes a TCP reply (its source port and flags) and gives what it reports:
    /// `reply_report` of it, unless its port was reported before; a reported
    /// port is remembered.
    pub fn on_reply(&mut self, port: u16, flags: u8) -> (r: Option<CapturedPacket>)
        ensures
            final(self).is_ack_scan() == old(self).is_ack_scan(),
            final(self).shows_reset() == old(self).shows_reset(),
            old(self)@.contains(port) ==> (r is None && final(self)@ == old(self)@),
            !old(self)@.contains(port) ==> r == reply_report(
                old(self).is_ack_scan(),
                old(self).shows_reset(),
                port,
                flags,
            ),
            r is None ==> final(self)@ == old(self)@,
            r matches Some(p) ==> (p.source_port == port && !old(self)@.contains(port)
                && final(self)@ == old(self)@.insert(port)),
            // A port not reported before, in an ACK or FIN scan: a reply with RST
            // is reported as its reset, any other reply is not reported.
            !old(self)@.contains(port) && old(self).is_ack_scan() && flags & 0x04 != 0 ==> r == Some(
                CapturedPacket { source_port: port, is_syn_ack: false },
            ),
            !old(self)@.contains(port) && old(self).is_ack_scan() && flags & 0x04 == 0 ==> r is None,
            // In a SYN scan: SYN and ACK report the port open; otherwise RST
            // reports a reset when resets are shown; nothing else is reported.
            !old(self)@.contains(port) && !old(self).is_ack_scan() && flags & 0x02 != 0 && flags & 0x10
                != 0 ==> r == Some(CapturedPacket { source_port: port, is_syn_ack: true }),
            !old(self)@.contains(port) && !old(self).is_ack_scan() && !(flags & 0x02 != 0 && flags & 0x10
                != 0) && flags & 0x04 != 0 && old(self).shows_reset() ==> r == Some(
                CapturedPacket { source_port: port, is_syn_ack: false },
            ),
            !old(self)@.contains(port) && !old(self).is_ack_scan() && !(flags & 0x02 != 0 && flags & 0x10
                != 0) && (flags & 0x04 == 0 || !old(self).shows_reset()) ==> r is None,
    {
        broadcast use vstd::std_specs::hash::group_hash_axioms;
        if self.seen.contains(&port) {
            return None;
        }
        let r = if self.ack_scan {
            classify_ack_reply(port, flags)
        } else {
            classify_syn_reply(port, flags, self.show_reset)
        };
        if r.is_some() {
            self.seen.insert(port);
        }
        r
    }
}

/// The line that reports a reply: `open: PORT` or `PORT: NAME` for an open
/// port, `RST: PORT` or `RST: PORT: NAME` for a reset, the name being looked up
/// when `lookup_name` is set.
pub open spec fn report_line_text(port: u16, is_syn_ack: bool, lookup_name: bool, name: Seq<char>) -> Seq<char> {
    if is_syn_ack {
        if lookup_name {
            decimal(port as nat) + ": "@ + name
        } else {
            "open: "@ + decimal(port as nat)
        }
    } else {
        if lookup_name {
            "RST: "@ + decimal(port as nat) + ": "@ + name
        } else {
            "RST: "@ + decimal(port as nat)
        }
    }
}

/// The usual name of `port` in `map`, or `Unknown`.
pub open spec fn name_in(map: Map<u16, &'static str>, port: u16) -> Seq<char> {
    if map.contains_key(port) {
        map[port]@
    } else {
        "Unknown"@
    }
}

/// Builds the line that reports a reply (see `report_line_text`), the name
/// coming from the port map.
pub fn report_line(map: &HashMap<u16, &'static str>, reply: CapturedPacket, lookup_name: bool) -> (s: String)
    ensures
        s@ == report_line_text(reply.source_port, reply.is_syn_ack, lookup_name, name_in(map@, reply.source_port)),
{
    let name = crate::ports::port_name(map, reply.source_port);
    let mut s = String::new();
    if !reply.is_syn_ack {
        push_str(&mut s, "RST: ");
    } else if !lookup_name {
        push_str(&mut s, "open: ");
    }
    push_decimal(&mut s, reply.source_port as u64);
    if lookup_name {
        push_str(&mut s, ": ");
        push_str(&mut s, name);
    }
    proof {
        assert(s@ =~= report_line_text(
            reply.source_port,
            reply.is_syn_ack,
            lookup_name,
            name_in(map@, reply.source_port),
        ));
    }
    s
}

/// The line a full-handshake scan prints for an open port: `PORT: NAME` when
/// names are looked up, else `PORT`.
pub open spec fn open_port_line_text(port: u16, lookup_name: bool, name: Seq<char>) -> Seq<char> {
    if lookup_name {
        decimal(port as nat) + ": "@ + name
    } else {
        decimal(port as nat)
    }
}

/// Builds the line a full-handshake scan prints for an open port.
pub fn open_port_line(map: &HashMap<u16, &'static str>, port: u16, lookup_name: bool) -> (s: String)
    ensures
        s@ == open_port_line_text(port, lookup_name, name_in(map@, port)),
{
    let mut s = String::new();
    push_decimal(&mut s, port as u64);
    if lookup_name {
        push_str(&mut s, ": ");
        push_str(&mut s, crate::ports::port_name(map, port));
    }
    proof {
        assert(s@ =~= open_port_line_text(port, lookup_name, name_in(map@, port)));
    }
    s
}

/// The target lies in one of the interface's networks (each an address and a
/// prefix length).
pub open spec fn on_link_spec(networks: Seq<(Ipv4, u8)>, target: Ipv4) -> bool {
    exists|i: int| 0 <= i < networks.len() && in_network(#[trigger] networks[i].0, networks[i].1 as nat, target)
}

/// Whether the target is on a network of the interface, so that frames go to
/// it directly rather than through the gateway.
pub fn on_link(networks: &Vec<(Ipv4, u8)>, target: Ipv4) -> (r: bool)
    requires
        forall|i: int| 0 <= i < networks@.len() ==> #[trigger] networks@[i].1 <= 32,
    ensures
        r == on_link_spec(networks@, target),
{
    let mut i: usize = 0;
    while i < networks.len()
        invariant
            i <= networks@.len(),
            forall|k: int| 0 <= k < networks@.len() ==> #[trigger] networks@[k].1 <= 32,
            forall|j: int| 0 <= j < i ==> !in_network(#[trigger] networks@[j].0, networks@[j].1 as nat, target),
        decreases networks@.len() - i,
    {
        let (net, prefix) = networks[i];
        if net_contains(net, prefix, target) {
            return true;
        }
        i = i + 1;
    }
    false
}

/// A MAC address of all zeros.
pub open spec fn is_zero_mac(m: [u8; 6]) -> bool {
    m@[0] == 0 && m@[1] == 0 && m@[2] == 0 && m@[3] == 0 && m@[4] == 0 && m@[5] == 0
}

/// Where the frames of a probe scan are sent first.
#[derive(Clone, Copy, Debug)]
pub enum FirstHop {
    /// The target is on the link: ask for its MAC address by ARP.
    ArpTarget,
    /// Through the gateway, whose MAC address the system already knows.
    Gateway([u8; 6]),
    /// Through the gateway, whose address is still to be found.
    ResolveGateway,
}

/// The first hop: the target itself when on the link, else the gateway, by
/// the MAC address the system gives for it unless that is all zeros.
pub open spec fn first_hop_spec(on_link: bool, gateway_mac: Option<[u8; 6]>) -> FirstHop {
    if on_link {
        FirstHop::ArpTarget
    } else {
        match gateway_mac {
            Some(m) => if is_zero_mac(m) {
                FirstHop::ResolveGateway
            } else {
                FirstHop::Gateway(m)
            },
            None => FirstHop::ResolveGateway,
        }
    }
}

/// Chooses the first hop (see `first_hop_spec`).
pub fn first_hop(on_link: bool, gateway_mac: Option<[u8; 6]>) -> (h: FirstHop)
    ensures
        h == first_hop_spec(on_link, gateway_mac),
{
    if on_link {
        return FirstHop::ArpTarget;
    }
    match gateway_mac {
        Some(m) => {
            if m[0] == 0 && m[1] == 0 && m[2] == 0 && m[3] == 0 && m[4] == 0 && m[5] == 0 {
                FirstHop::ResolveGateway
            } else {
                FirstHop::Gateway(m)
            }
        },
        None => FirstHop::ResolveGateway,
    }
}

/// The gateway found for an interface, or a `GatewayResolutionFailure` that
/// names the interface.
pub fn gateway_or_error(gateway_ip: Option<Ipv4>, interface_name: &str) -> (r: Result<Ipv4, NtkError>)
    ensures
        gateway_ip matches Some(ip) ==> r == Ok::<Ipv4, NtkError>(ip),
        gateway_ip is None ==> (r matches Err(NtkError::GatewayResolutionFailure(s)) && s@
            == "no gateway found for interface "@ + interface_name@),
{
    match gateway_ip {
        Some(ip) => Ok(ip),
        None => {
            let mut s = String::new();
            push_str(&mut s, "no gateway found for interface ");
            push_str(&mut s, interface_name);
            proof {
                assert(s@ =~= "no gateway found for interface "@ + interface_name@);
            }
            Err(NtkError::GatewayResolutionFailure(s))
        },
    }
}

} // verus!
