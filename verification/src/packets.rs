//! Decoding of captured frames into one-line summaries (the `view` subcommand):
//! the link-layer offset of the IP header, the IPv4, ICMP, IGMP, TCP, UDP and
//! ARP headers, and the text of the summary lines.
use vstd::prelude::*;
use crate::ipv4::{Ipv4, ipv4_text, push_ipv4};
use crate::text::{
    decimal, decimal_u8, decimal_u16, hex_byte_lower, pad_right, zero_padded, push_char,
    push_decimal, push_decimal_u16, push_hex_byte, push_padded, push_str, push_zero_padded,
};

verus! {

/// The 16-bit big-endian number made of the bytes `hi` and `lo`.
pub open spec fn be16(hi: u8, lo: u8) -> u16 {
    (hi as int * 256 + lo as int) as u16
}

/// The 32-bit little-endian number made of four bytes.
pub open spec fn le32(b0: u8, b1: u8, b2: u8, b3: u8) -> u32 {
    (b0 as int + b1 as int * 256 + b2 as int * 65536 + b3 as int * 16777216) as u32
}

/// The 32-bit big-endian number made of four bytes.
pub open spec fn be32(b0: u8, b1: u8, b2: u8, b3: u8) -> u32 {
    (b0 as int * 16777216 + b1 as int * 65536 + b2 as int * 256 + b3 as int) as u32
}

/// The big-endian 16-bit number at `i` and `i + 1`.
pub fn read_be16(buf: &[u8], i: usize) -> (r: u16)
    requires
        i + 1 < buf@.len(),
    ensures
        r == be16(buf@[i as int], buf@[i + 1]),
{
    (buf[i] as u16) * 256 + (buf[i + 1] as u16)
}

/// The link layer of a capture.
#[derive(Clone, Copy, Debug, PartialEq, Eq, Structural)]
pub enum Datalink {
    /// 14-byte Ethernet header.
    Ethernet,
    /// 4-byte BSD loopback header (macOS `lo0`).
    BsdLoopback,
}

/// The link layer of a capture with the given link-layer type number:
/// `DLT_NULL` (0) is the BSD loopback header, anything else is taken as Ethernet.
pub fn detect_datalink(linktype: i32) -> (dl: Datalink)
    ensures
        dl == (if linktype == 0 { Datalink::BsdLoopback } else { Datalink::Ethernet }),
{
    if linktype == 0 {
        Datalink::BsdLoopback
    } else {
        Datalink::Ethernet
    }
}

/// The address family in a loopback header: its first four bytes read in the
/// capturing machine's byte order, little-endian or big-endian.
pub open spec fn loopback_family(frame: Seq<u8>, little_endian: bool) -> u32 {
    if little_endian {
        le32(frame[0], frame[1], frame[2], frame[3])
    } else {
        be32(frame[0], frame[1], frame[2], frame[3])
    }
}

/// The offset of the network-layer header in `frame` and its EtherType.
/// Ethernet: 14, and the EtherType of the header. Loopback: 4 and IPv4, when
/// the address family in the header is 2 (`AF_INET`), read in the machine's
/// byte order (`little_endian` says which one the machine has).
pub fn ip_offset(frame: &[u8], dl: &Datalink, little_endian: bool) -> (r: Option<(usize, u16)>)
    ensures
        *dl == Datalink::Ethernet ==> r == (if frame@.len() < 14 {
            None
        } else {
            Some((14usize, be16(frame@[12], frame@[13])))
        }),
        *dl == Datalink::BsdLoopback ==> r == (if frame@.len() >= 4 && loopback_family(
            frame@,
            little_endian,
        ) == 2 {
            Some((4usize, 0x0800u16))
        } else {
            None
        }),
{
    match dl {
        Datalink::Ethernet => {
            if frame.len() < 14 {
                return None;
            }
            let ethertype = read_be16(frame, 12);
            Some((14, ethertype))
        },
        Datalink::BsdLoopback => {
            if frame.len() < 4 {
                return None;
            }
            let (b0, b1, b2, b3) = (frame[0] as u32, frame[1] as u32, frame[2] as u32, frame[3] as u32);
            let af: u32 = if little_endian {
                b0 + b1 * 256 + b2 * 65536 + b3 * 16777216
            } else {
                b0 * 16777216 + b1 * 65536 + b2 * 256 + b3
            };
            if af == 2 {
                Some((4, 0x0800))
            } else {
                None
            }
        },
    }
}

/// The protocol carried in an IPv4 packet, as far as the summary shows it.
#[derive(Debug)]
pub enum ProtocolType {
    Icmp { type_str: &'static str, id: u16, seq: u16 },
    Igmp { type_str: &'static str, group: Ipv4 },
    Tcp { src_port: u16, dst_port: u16, flags: String },
    Udp { src_port: u16, dst_port: u16 },
    Other(u8),
}

/// The summary of an IPv4 packet.
#[derive(Debug)]
pub struct PacketSummary {
    pub src_ip: Ipv4,
    pub dst_ip: Ipv4,
    pub protocol: ProtocolType,
    pub length: u16,
}

/// The summary of an ARP packet.
#[derive(Clone, Copy, Debug)]
pub struct ArpSummary {
    pub op_str: &'static str,
    pub sender_mac: [u8; 6],
    pub sender_ip: Ipv4,
    pub target_mac: [u8; 6],
    pub target_ip: Ipv4,
}

/// The name of an IGMP message type.
pub open spec fn igmp_type_name(t: u8) -> &'static str {
    if t == 0x11 {
        "Membership Query"
    } else if t == 0x12 {
        "Membership Report v1"
    } else if t == 0x16 {
        "Membership Report v2"
    } else if t == 0x22 {
        "Membership Report v3"
    } else if t == 0x17 {
        "Leave Group"
    } else {
        "IGMP (other)"
    }
}

/// The name of an IGMP message type.
pub fn igmp_type_str(t: u8) -> (s: &'static str)
    ensures
        s == igmp_type_name(t),
        // The names of RFC 1112, 2236 and 3376, type by type.
        t == 0x11 ==> s == "Membership Query",
        t == 0x12 ==> s == "Membership Report v1",
        t == 0x16 ==> s == "Membership Report v2",
        t == 0x22 ==> s == "Membership Report v3",
        t == 0x17 ==> s == "Leave Group",
        t != 0x11 && t != 0x12 && t != 0x16 && t != 0x22 && t != 0x17 ==> s == "IGMP (other)",
{
    match t {
        0x11 => "Membership Query",
        0x12 => "Membership Report v1",
        0x16 => "Membership Report v2",
        0x22 => "Membership Report v3",
        0x17 => "Leave Group",
        _ => "IGMP (other)",
    }
}

/// The name of an ICMP message type and code.
pub open spec fn icmp_type_name(t: u8, code: u8) -> &'static str {
    if t == 0 && code == 0 {
        "Echo Reply"
    } else if t == 8 && code == 0 {
        "Echo Request"
    } else if t == 11 && code == 0 {
        "TTL Exceeded"
    } else if t == 11 && code == 1 {
        "Frag Reassembly Exceeded"
    } else if t == 3 && code == 0 {
        "Net Unreachable"
    } else if t == 3 && code == 1 {
        "Host Unreachable"
    } else if t == 3 && code == 2 {
        "Proto Unreachable"
    } else if t == 3 && code == 3 {
        "Port Unreachable"
    } else if t == 3 && code == 4 {
        "Fragmentation Needed"
    } else {
        "ICMP (other)"
    }
}

/// The name of an ICMP message type and code.
pub fn icmp_type_str(t: u8, code: u8) -> (s: &'static str)
    ensures
        s == icmp_type_name(t, code),
        // The names of RFC 792, pair by pair.
        t == 0 && code == 0 ==> s == "Echo Reply",
        t == 8 && code == 0 ==> s == "Echo Request",
        t == 11 && code == 0 ==> s == "TTL Exceeded",
        t == 11 && code == 1 ==> s == "Frag Reassembly Exceeded",
        t == 3 && code == 0 ==> s == "Net Unreachable",
        t == 3 && code == 1 ==> s == "Host Unreachable",
        t == 3 && code == 2 ==> s == "Proto Unreachable",
        t == 3 && code == 3 ==> s == "Port Unreachable",
        t == 3 && code == 4 ==> s == "Fragmentation Needed",
        !((t == 0 || t == 8) && code == 0) && !(t == 11 && code <= 1) && !(t == 3 && code <= 4) ==> s
            == "ICMP (other)",
{
    match (t, code) {
        (0, 0) => "Echo Reply",
        (8, 0) => "Echo Request",
        (11, 0) => "TTL Exceeded",
        (11, 1) => "Frag Reassembly Exceeded",
        (3, 0) => "Net Unreachable",
        (3, 1) => "Host Unreachable",
        (3, 2) => "Proto Unreachable",
        (3, 3) => "Port Unreachable",
        (3, 4) => "Fragmentation Needed",
        _ => "ICMP (other)",
    }
}

/// Pieces joined with `sep` between each two.
pub open spec fn join(parts: Seq<Seq<char>>, sep: Seq<char>) -> Seq<char>
    decreases parts.len(),
{
    if parts.len() == 0 {
        seq![]
    } else if parts.len() == 1 {
        parts[0]
    } else {
        join(parts.drop_last(), sep) + sep + parts.last()
    }
}

/// The names of the TCP flags set in `f`, in the order SYN, ACK, FIN, RST, PSH, URG.
pub open spec fn tcp_flag_names(f: u8) -> Seq<Seq<char>> {
    let p0: Seq<Seq<char>> = seq![];
    let p1 = if f & 0x02 != 0 { p0.push("SYN"@) } else { p0 };
    let p2 = if f & 0x10 != 0 { p1.push("ACK"@) } else { p1 };
    let p3 = if f & 0x01 != 0 { p2.push("FIN"@) } else { p2 };
    let p4 = if f & 0x04 != 0 { p3.push("RST"@) } else { p3 };
    let p5 = if f & 0x08 != 0 { p4.push("PSH"@) } else { p4 };
    if f & 0x20 != 0 { p5.push("URG"@) } else { p5 }
}

/// The TCP flags of `f` as text: their names joined by `+`, or `NONE`.
pub open spec fn tcp_flags_text(f: u8) -> Seq<char> {
    if tcp_flag_names(f).len() == 0 {
        "NONE"@
    } else {
        join(tcp_flag_names(f), "+"@)
    }
}

/// Appends a flag name to the text built so far (joined by `+`).
fn push_flag(s: &mut String, parts: Ghost<Seq<Seq<char>>>, any: bool, name: &str) -> (r: Ghost<
    Seq<Seq<char>>,
>)
    requires
        old(s)@ == join(parts@, "+"@),
        any == (parts@.len() > 0),
    ensures
        r@ == parts@.push(name@),
        final(s)@ == join(r@, "+"@),
{
    let ghost new_parts = parts@.push(name@);
    if any {
        push_str(s, "+");
    }
    push_str(s, name);
    proof {
        assert(new_parts.drop_last() =~= parts@);
        if parts@.len() == 0 {
            assert(join(new_parts, "+"@) == new_parts[0]);
            assert(final(s)@ =~= name@);
        }
    }
    Ghost(new_parts)
}

/// The TCP flags of `f` as text, such as `SYN+ACK`, or `NONE`.
pub fn tcp_flags_str(f: u8) -> (s: String)
    ensures
        s@ == tcp_flags_text(f),
{
    let mut s = String::new();
    let ghost empty: Seq<Seq<char>> = seq![];
    let mut parts: Ghost<Seq<Seq<char>>> = Ghost(empty);
    let mut any = false;
    assert(s@ =~= join(parts@, "+"@));
    if f & 0x02 != 0 {
        parts = push_flag(&mut s, parts, any, "SYN");
        any = true;
    }
    if f & 0x10 != 0 {
        parts = push_flag(&mut s, parts, any, "ACK");
        any = true;
    }
    if f & 0x01 != 0 {
        parts = push_flag(&mut s, parts, any, "FIN");
        any = true;
    }
    if f & 0x04 != 0 {
        parts = push_flag(&mut s, parts, any, "RST");
        any = true;
    }
    if f & 0x08 != 0 {
        parts = push_flag(&mut s, parts, any, "PSH");
        any = true;
    }
    if f & 0x20 != 0 {
        parts = push_flag(&mut s, parts, any, "URG");
        any = true;
    }
    assert(parts@ == tcp_flag_names(f));
    if !any {
        let mut n = String::new();
        push_str(&mut n, "NONE");
        assert(n@ =~= "NONE"@);
        return n;
    }
    s
}

/// What an ICMP payload summarises to.
pub open spec fn icmp_summary_ok(p: ProtocolType, buf: Seq<u8>) -> bool {
    if buf.len() < 8 {
        p == (ProtocolType::Icmp { type_str: "ICMP (short)", id: 0, seq: 0 })
    } else {
        p == (ProtocolType::Icmp {
            type_str: icmp_type_name(buf[0], buf[1]),
            id: be16(buf[4], buf[5]),
            seq: be16(buf[6], buf[7]),
        })
    }
}

/// Summarises an ICMP message: its type, identifier and sequence number.
pub fn parse_icmp(buf: &[u8]) -> (p: ProtocolType)
    ensures
        icmp_summary_ok(p, buf@),
{
    if buf.len() < 8 {
        return ProtocolType::Icmp { type_str: "ICMP (short)", id: 0, seq: 0 };
    }
    let type_str = icmp_type_str(buf[0], buf[1]);
    let id = read_be16(buf, 4);
    let seq = read_be16(buf, 6);
    ProtocolType::Icmp { type_str, id, seq }
}

/// What an IGMP payload summarises to.
pub open spec fn igmp_summary_ok(p: ProtocolType, buf: Seq<u8>) -> bool {
    if buf.len() < 8 {
        p == (ProtocolType::Igmp { type_str: "IGMP (short)", group: Ipv4 { a: 0, b: 0, c: 0, d: 0 } })
    } else {
        p == (ProtocolType::Igmp {
            type_str: igmp_type_name(buf[0]),
            group: Ipv4 { a: buf[4], b: buf[5], c: buf[6], d: buf[7] },
        })
    }
}

/// Summarises an IGMP message: its type and group address.
pub fn parse_igmp(buf: &[u8]) -> (p: ProtocolType)
    ensures
        igmp_summary_ok(p, buf@),
{
    if buf.len() < 8 {
        return ProtocolType::Igmp { type_str: "IGMP (short)", group: Ipv4 { a: 0, b: 0, c: 0, d: 0 } };
    }
    let type_str = igmp_type_str(buf[0]);
    let group = Ipv4 { a: buf[4], b: buf[5], c: buf[6], d: buf[7] };
    ProtocolType::Igmp { type_str, group }
}

/// What a TCP segment summarises to.
pub open spec fn tcp_summary_ok(p: ProtocolType, buf: Seq<u8>) -> bool {
    match p {
        ProtocolType::Tcp { src_port, dst_port, flags } => if buf.len() < 20 {
            src_port == 0 && dst_port == 0 && flags@ == "?"@
        } else {
            &&& src_port == be16(buf[0], buf[1])
            &&& dst_port == be16(buf[2], buf[3])
            &&& flags@ == tcp_flags_text(buf[13])
        },
        _ => false,
    }
}

/// Summarises a TCP segment: its ports and flags.
pub fn parse_tcp(buf: &[u8]) -> (p: ProtocolType)
    ensures
        tcp_summary_ok(p, buf@),
{
    if buf.len() < 20 {
        let mut q = String::new();
        push_str(&mut q, "?");
        assert(q@ =~= "?"@);
        return ProtocolType::Tcp { src_port: 0, dst_port: 0, flags: q };
    }
    ProtocolType::Tcp {
        src_port: read_be16(buf, 0),
        dst_port: read_be16(buf, 2),
        flags: tcp_flags_str(buf[13]),
    }
}

/// What a UDP datagram summarises to.
pub open spec fn udp_summary_ok(p: ProtocolType, buf: Seq<u8>) -> bool {
    if buf.len() < 8 {
        p == (ProtocolType::Udp { src_port: 0, dst_port: 0 })
    } else {
        p == (ProtocolType::Udp { src_port: be16(buf[0], buf[1]), dst_port: be16(buf[2], buf[3]) })
    }
}

/// Summarises a UDP datagram: its ports.
pub fn parse_udp(buf: &[u8]) -> (p: ProtocolType)
    ensures
        udp_summary_ok(p, buf@),
{
    if buf.len() < 8 {
        return ProtocolType::Udp { src_port: 0, dst_port: 0 };
    }
    ProtocolType::Udp { src_port: read_be16(buf, 0), dst_port: read_be16(buf, 2) }
}

/// The header length of an IPv4 packet in bytes (from its first byte).
pub open spec fn ipv4_header_len(first: u8) -> nat {
    ((first & 0x0f) as nat) * 4
}

/// What follows the header of an IPv4 packet (by the header length it announces).
pub open spec fn ipv4_payload(buf: Seq<u8>) -> Seq<u8> {
    buf.subrange(ipv4_header_len(buf[0]) as int, buf.len() as int)
}

/// The header length of an IPv4 packet in bytes.
fn header_len_bytes(first: u8) -> (n: usize)
    ensures
        n == ipv4_header_len(first),
        n <= 60,
{
    let low = first & 0x0f;
    assert(low <= 15) by (bit_vector)
        requires
            low == first & 0x0f,
    ;
    (low as usize) * 4
}

/// What the payload of an IPv4 packet with protocol number `protocol`
/// summarises to.
pub open spec fn protocol_summary_ok(p: ProtocolType, protocol: u8, payload: Seq<u8>) -> bool {
    if protocol == 1 {
        icmp_summary_ok(p, payload)
    } else if protocol == 2 {
        igmp_summary_ok(p, payload)
    } else if protocol == 6 {
        tcp_summary_ok(p, payload)
    } else if protocol == 17 {
        udp_summary_ok(p, payload)
    } else {
        p == ProtocolType::Other(protocol)
    }
}

/// An IPv4 packet can be summarised: it holds the 20-byte header and the
/// header length it announces.
pub open spec fn ipv4_summarizable(buf: Seq<u8>) -> bool {
    buf.len() >= 20 && ipv4_header_len(buf[0]) <= buf.len()
}

/// `p` summarises the IPv4 packet `buf`.
pub open spec fn ipv4_summary_of(p: PacketSummary, buf: Seq<u8>) -> bool {
    &&& p.src_ip == (Ipv4 { a: buf[12], b: buf[13], c: buf[14], d: buf[15] })
    &&& p.dst_ip == (Ipv4 { a: buf[16], b: buf[17], c: buf[18], d: buf[19] })
    &&& p.length == be16(buf[2], buf[3])
    &&& protocol_summary_ok(p.protocol, buf[9], ipv4_payload(buf))
}

/// Summarises an IPv4 packet: addresses, total length and the carried protocol.
/// Gives nothing for a buffer shorter than the 20-byte header or than the
/// header length it announces.
pub fn parse_ipv4(buf: &[u8]) -> (r: Option<PacketSummary>)
    ensures
        r is Some <==> ipv4_summarizable(buf@),
        r matches Some(p) ==> ipv4_summary_of(p, buf@),
{
    if buf.len() < 20 {
        return None;
    }
    let ihl = header_len_bytes(buf[0]);
    let length = read_be16(buf, 2);
    let protocol = buf[9];
    let src_ip = Ipv4 { a: buf[12], b: buf[13], c: buf[14], d: buf[15] };
    let dst_ip = Ipv4 { a: buf[16], b: buf[17], c: buf[18], d: buf[19] };
    if buf.len() < ihl {
        return None;
    }
    let payload = &buf[ihl..buf.len()];
    let proto = match protocol {
        1 => parse_icmp(payload),
        2 => parse_igmp(payload),
        6 => parse_tcp(payload),
        17 => parse_udp(payload),
        n => ProtocolType::Other(n),
    };
    Some(PacketSummary { src_ip, dst_ip, protocol: proto, length })
}

/// The name of an ARP operation.
pub open spec fn arp_op_name(op: u16) -> &'static str {
    if op == 1 {
        "Request"
    } else if op == 2 {
        "Reply"
    } else {
        "Unknown"
    }
}

/// Six bytes of `buf` from `i` on, as an array.
fn mac_at(buf: &[u8], i: usize) -> (m: [u8; 6])
    requires
        i + 6 <= buf@.len(),
    ensures
        m@ == buf@.subrange(i as int, i + 6),
{
    let m = [buf[i], buf[i + 1], buf[i + 2], buf[i + 3], buf[i + 4], buf[i + 5]];
    assert(m@ =~= buf@.subrange(i as int, i + 6));
    m
}

/// An ARP packet can be summarised: 28 bytes at least, for Ethernet and IPv4.
pub open spec fn arp_summarizable(buf: Seq<u8>) -> bool {
    buf.len() >= 28 && be16(buf[0], buf[1]) == 1 && be16(buf[2], buf[3]) == 0x0800
}

/// `a` summarises the ARP packet `buf`.
pub open spec fn arp_summary_of(a: ArpSummary, buf: Seq<u8>) -> bool {
    &&& a.op_str == arp_op_name(be16(buf[6], buf[7]))
    &&& a.sender_mac@ == buf.subrange(8, 14)
    &&& a.sender_ip == (Ipv4 { a: buf[14], b: buf[15], c: buf[16], d: buf[17] })
    &&& a.target_mac@ == buf.subrange(18, 24)
    &&& a.target_ip == (Ipv4 { a: buf[24], b: buf[25], c: buf[26], d: buf[27] })
}

/// Summarises an ARP packet for Ethernet and IPv4: operation, sender and target.
/// Gives nothing for a buffer shorter than 28 bytes or another hardware or
/// protocol type.
pub fn parse_arp(buf: &[u8]) -> (r: Option<ArpSummary>)
    ensures
        r is Some <==> arp_summarizable(buf@),
        r matches Some(a) ==> arp_summary_of(a, buf@),
        // The operation names of RFC 826: 1 is a request, 2 a reply.
        r is Some && buf@[6] == 0 && buf@[7] == 1 ==> r.unwrap().op_str == "Request",
        r is Some && buf@[6] == 0 && buf@[7] == 2 ==> r.unwrap().op_str == "Reply",
        r is Some && !(buf@[6] == 0 && (buf@[7] == 1 || buf@[7] == 2)) ==> r.unwrap().op_str == "Unknown",
{
    if buf.len() < 28 {
        return None;
    }
    let htype = read_be16(buf, 0);
    let ptype = read_be16(buf, 2);
    if htype != 1 || ptype != 0x0800 {
        return None;
    }
    let op = match read_be16(buf, 6) {
        1 => "Request",
        2 => "Reply",
        _ => "Unknown",
    };
    let sender_mac = mac_at(buf, 8);
    let sender_ip = Ipv4 { a: buf[14], b: buf[15], c: buf[16], d: buf[17] };
    let target_mac = mac_at(buf, 18);
    let target_ip = Ipv4 { a: buf[24], b: buf[25], c: buf[26], d: buf[27] };
    Some(ArpSummary { op_str: op, sender_mac, sender_ip, target_mac, target_ip })
}

/// The clock time of day `hh:mm:ss.mmm` (UTC) for `seconds` since the epoch and
/// `millis` past the second.
pub open spec fn timestamp_text(seconds: u64, millis: u32) -> Seq<char> {
    zero_padded((seconds / 3600 % 24) as nat, 2) + seq![':'] + zero_padded(
        (seconds / 60 % 60) as nat,
        2,
    ) + seq![':'] + zero_padded((seconds % 60) as nat, 2) + seq!['.'] + zero_padded(
        millis as nat,
        3,
    )
}

/// The clock time of day `hh:mm:ss.mmm` for a time since the epoch.
pub fn get_timestamp(seconds: u64, millis: u32) -> (s: String)
    ensures
        s@ == timestamp_text(seconds, millis),
{
    let mut s = String::new();
    push_zero_padded(&mut s, seconds / 3600 % 24, 2);
    push_char(&mut s, ':');
    push_zero_padded(&mut s, seconds / 60 % 60, 2);
    push_char(&mut s, ':');
    push_zero_padded(&mut s, seconds % 60, 2);
    push_char(&mut s, '.');
    push_zero_padded(&mut s, millis as u64, 3);
    assert(s@ =~= timestamp_text(seconds, millis));
    s
}

/// One summary line: time stamp, protocol, subtype, source, destination, length
/// when there is one, and extra details, in padded columns.
pub open spec fn summary_line_text(
    timestamp: Seq<char>,
    protocol: Seq<char>,
    src: Seq<char>,
    dst: Seq<char>,
    subtype: Seq<char>,
    length: Option<u16>,
    extra: Seq<char>,
) -> Seq<char> {
    let len_text = match length {
        Some(l) => "len: "@ + decimal(l as nat) + "  "@,
        None => seq![],
    };
    timestamp + "|  "@ + pad_right(protocol, 4) + " "@ + pad_right(subtype, 22) + "  "@
        + pad_right(src, 21) + " => "@ + pad_right(dst, 21) + " "@ + len_text + extra
}

/// Builds one summary line (see `summary_line_text`).
pub fn format_line(
    timestamp: &str,
    protocol: &str,
    src: &str,
    dst: &str,
    subtype: &str,
    length: Option<u16>,
    extra: &str,
) -> (s: String)
    ensures
        s@ == summary_line_text(timestamp@, protocol@, src@, dst@, subtype@, length, extra@),
{
    let mut s = String::new();
    push_str(&mut s, timestamp);
    push_str(&mut s, "|  ");
    push_padded(&mut s, protocol, 4);
    push_str(&mut s, " ");
    push_padded(&mut s, subtype, 22);
    push_str(&mut s, "  ");
    push_padded(&mut s, src, 21);
    push_str(&mut s, " => ");
    push_padded(&mut s, dst, 21);
    push_str(&mut s, " ");
    let ghost before_len = s@;
    match length {
        Some(l) => {
            push_str(&mut s, "len: ");
            push_decimal(&mut s, l as u64);
            push_str(&mut s, "  ");
        },
        None => {},
    }
    push_str(&mut s, extra);
    assert(s@ =~= summary_line_text(timestamp@, protocol@, src@, dst@, subtype@, length, extra@));
    s
}

/// `ip:port` as text.
pub open spec fn endpoint_text(ip: Ipv4, port: u16) -> Seq<char> {
    ipv4_text(ip) + seq![':'] + decimal(port as nat)
}

/// Builds `ip:port`.
pub fn endpoint_string(ip: Ipv4, port: u16) -> (s: String)
    ensures
        s@ == endpoint_text(ip, port),
{
    let mut s = String::new();
    push_ipv4(&mut s, ip);
    push_char(&mut s, ':');
    push_decimal(&mut s, port as u64);
    assert(s@ =~= endpoint_text(ip, port));
    s
}

/// A MAC address as six lower-case hexadecimal pairs joined by `:`.
pub open spec fn mac_text(m: Seq<u8>) -> Seq<char> {
    hex_byte_lower(m[0]) + seq![':'] + hex_byte_lower(m[1]) + seq![':'] + hex_byte_lower(m[2])
        + seq![':'] + hex_byte_lower(m[3]) + seq![':'] + hex_byte_lower(m[4]) + seq![':']
        + hex_byte_lower(m[5])
}

/// Appends a MAC address as `aa:bb:cc:dd:ee:ff`.
pub fn push_mac(s: &mut String, m: &[u8; 6])
    ensures
        final(s)@ == old(s)@ + mac_text(m@),
{
    push_hex_byte(s, m[0]);
    push_char(s, ':');
    push_hex_byte(s, m[1]);
    push_char(s, ':');
    push_hex_byte(s, m[2]);
    push_char(s, ':');
    push_hex_byte(s, m[3]);
    push_char(s, ':');
    push_hex_byte(s, m[4]);
    push_char(s, ':');
    push_hex_byte(s, m[5]);
    assert(final(s)@ =~= old(s)@ + mac_text(m@));
}

/// A MAC address as text, `aa:bb:cc:dd:ee:ff`.
pub fn mac_string(m: [u8; 6]) -> (s: String)
    ensures
        s@ == mac_text(m@),
{
    let mut s = String::new();
    push_mac(&mut s, &m);
    assert(s@ =~= mac_text(m@));
    s
}

/// The protocol column of a summary line.
pub open spec fn protocol_column(p: ProtocolType) -> Seq<char> {
    match p {
        ProtocolType::Icmp { .. } => "ICMP"@,
        ProtocolType::Igmp { .. } => "IGMP"@,
        ProtocolType::Tcp { .. } => "TCP"@,
        ProtocolType::Udp { .. } => "UDP"@,
        ProtocolType::Other(n) => decimal_u8(n),
    }
}

impl PacketSummary {
    /// The line the `view` subcommand prints for this packet, after the time
    /// stamp `timestamp`.
    pub open spec fn line_text(self, timestamp: Seq<char>) -> Seq<char> {
        match self.protocol {
            ProtocolType::Icmp { type_str, id, seq } => summary_line_text(
                timestamp,
                "ICMP"@,
                ipv4_text(self.src_ip),
                ipv4_text(self.dst_ip),
                type_str@,
                Some(self.length),
                "id="@ + decimal_u16(id) + " seq="@ + decimal_u16(seq),
            ),
            ProtocolType::Igmp { type_str, group } => summary_line_text(
                timestamp,
                "IGMP"@,
                ipv4_text(self.src_ip),
                ipv4_text(self.dst_ip),
                type_str@,
                Some(self.length),
                "group="@ + ipv4_text(group),
            ),
            ProtocolType::Tcp { src_port, dst_port, flags } => summary_line_text(
                timestamp,
                "TCP"@,
                endpoint_text(self.src_ip, src_port),
                endpoint_text(self.dst_ip, dst_port),
                flags@,
                Some(self.length),
                ""@,
            ),
            ProtocolType::Udp { src_port, dst_port } => summary_line_text(
                timestamp,
                "UDP"@,
                endpoint_text(self.src_ip, src_port),
                endpoint_text(self.dst_ip, dst_port),
                ""@,
                Some(self.length),
                ""@,
            ),
            ProtocolType::Other(n) => summary_line_text(
                timestamp,
                decimal_u8(n),
                ipv4_text(self.src_ip),
                ipv4_text(self.dst_ip),
                ""@,
                Some(self.length),
                ""@,
            ),
        }
    }

    /// Builds the line the `view` subcommand prints for this packet.
    pub fn summary_line(&self, timestamp: &str) -> (s: String)
        ensures
            s@ == self.line_text(timestamp@),
    {
        let src = crate::ipv4::ipv4_to_string(self.src_ip);
        let dst = crate::ipv4::ipv4_to_string(self.dst_ip);
        match &self.protocol {
            ProtocolType::Icmp { type_str, id, seq } => {
                let mut extra = String::new();
                push_str(&mut extra, "id=");
                push_decimal_u16(&mut extra, *id);
                push_str(&mut extra, " seq=");
                push_decimal_u16(&mut extra, *seq);
                format_line(
                    timestamp,
                    "ICMP",
                    src.as_str(),
                    dst.as_str(),
                    type_str,
                    Some(self.length),
                    extra.as_str(),
                )
            },
            ProtocolType::Igmp { type_str, group } => {
                let mut extra = String::new();
                push_str(&mut extra, "group=");
                push_ipv4(&mut extra, *group);
                format_line(
                    timestamp,
                    "IGMP",
                    src.as_str(),
                    dst.as_str(),
                    type_str,
                    Some(self.length),
                    extra.as_str(),
                )
            },
            ProtocolType::Tcp { src_port, dst_port, flags } => {
                let s = endpoint_string(self.src_ip, *src_port);
                let d = endpoint_string(self.dst_ip, *dst_port);
                format_line(
                    timestamp,
                    "TCP",
                    s.as_str(),
                    d.as_str(),
                    flags.as_str(),
                    Some(self.length),
                    "",
                )
            },
            ProtocolType::Udp { src_port, dst_port } => {
                let s = endpoint_string(self.src_ip, *src_port);
                let d = endpoint_string(self.dst_ip, *dst_port);
                format_line(timestamp, "UDP", s.as_str(), d.as_str(), "", Some(self.length), "")
            },
            ProtocolType::Other(n) => {
                let p = crate::text::decimal_string_u8(*n);
                format_line(
                    timestamp,
                    p.as_str(),
                    src.as_str(),
                    dst.as_str(),
                    "",
                    Some(self.length),
                    "",
                )
            },
        }
    }
}

impl ArpSummary {
    /// The line the `view` subcommand prints for this ARP packet, after the time
    /// stamp `timestamp`.
    pub open spec fn line_text(self, timestamp: Seq<char>) -> Seq<char> {
        summary_line_text(
            timestamp,
            "ARP"@,
            ipv4_text(self.sender_ip),
            ipv4_text(self.target_ip),
            self.op_str@,
            None,
            "MAC: "@ + mac_text(self.sender_mac@) + " => "@ + mac_text(self.target_mac@),
        )
    }

    /// Builds the line the `view` subcommand prints for this ARP packet.
    pub fn summary_line(&self, timestamp: &str) -> (s: String)
        ensures
            s@ == self.line_text(timestamp@),
    {
        let src = crate::ipv4::ipv4_to_string(self.sender_ip);
        let dst = crate::ipv4::ipv4_to_string(self.target_ip);
        let mut extra = String::new();
        push_str(&mut extra, "MAC: ");
        push_mac(&mut extra, &self.sender_mac);
        push_str(&mut extra, " => ");
        push_mac(&mut extra, &self.target_mac);
        format_line(timestamp, "ARP", src.as_str(), dst.as_str(), self.op_str, None, extra.as_str())
    }
}


/// The line the `view` subcommand prints for the network-layer `payload` of a
/// frame with EtherType `ethertype`: the summary line of an IPv4 packet
/// (0x0800) or of an ARP packet (0x0806) that can be summarised; nothing
/// otherwise.
pub fn payload_line(payload: &[u8], ethertype: u16, timestamp: &str) -> (r: Option<String>)
    ensures
        ethertype == 0x0800 ==> {
            &&& r is Some <==> ipv4_summarizable(payload@)
            &&& r matches Some(l) ==> exists|p: PacketSummary|
                ipv4_summary_of(p, payload@) && l@ == #[trigger] p.line_text(timestamp@)
        },
        ethertype == 0x0806 ==> {
            &&& r is Some <==> arp_summarizable(payload@)
            &&& r matches Some(l) ==> exists|a: ArpSummary|
                arp_summary_of(a, payload@) && l@ == #[trigger] a.line_text(timestamp@)
        },
        ethertype != 0x0800 && ethertype != 0x0806 ==> r is None,
{
    if ethertype == 0x0800 {
        match parse_ipv4(payload) {
            Some(p) => Some(p.summary_line(timestamp)),
            None => None,
        }
    } else if ethertype == 0x0806 {
        match parse_arp(payload) {
            Some(a) => Some(a.summary_line(timestamp)),
            None => None,
        }
    } else {
        None
    }
}

} // verus!
