//! Ethernet frames sent and received by the probes: ARP requests and replies,
//! TCP probe segments, the IPv4 and Ethernet headers around them, and the
//! replies the ping, traceroute and scan listeners pick out.
use vstd::prelude::*;
use crate::checksum::{be_word_sum, complement, folded_total, internet_checksum, law_filled_checksum_checks};
use crate::ipv4::Ipv4;
use crate::packets::{arp_op_name, arp_summarizable, be16, be32, read_be16};
use crate::text::{chars_of, chars_eq};

verus! {

/// The bytes of an Ethernet frame after its 14-byte header.
pub open spec fn eth_payload(data: Seq<u8>) -> Seq<u8> {
    data.subrange(14, data.len() as int)
}

/// The payload of an IPv4 packet as the packet library reads it: it starts
/// after the header (at least 20 bytes, more when the header length says so)
/// and runs for the total length minus the header length, cut at the end of
/// the buffer; it is empty when the buffer ends before it starts.
pub open spec fn ipv4_packet_payload(ip: Seq<u8>) -> Seq<u8> {
    let hl = ((ip[0] % 16) as int) * 4;
    let start = if hl > 20 { hl } else { 20 };
    let total = be16(ip[2], ip[3]) as int;
    let plen = if total > hl { total - hl } else { 0 };
    let end = if start + plen < ip.len() { start + plen } else { ip.len() as int };
    if ip.len() <= start {
        seq![]
    } else {
        ip.subrange(start, end)
    }
}

/// The sub-slice `data[start..end]`.
fn slice_range(data: &[u8], start: usize, end: usize) -> (r: &[u8])
    requires
        start <= end <= data@.len(),
    ensures
        r@ == data@.subrange(start as int, end as int),
{
    &data[start..end]
}

/// The payload of an IPv4 packet (see `ipv4_packet_payload`).
fn ipv4_payload_of(ip: &[u8]) -> (r: &[u8])
    requires
        ip@.len() >= 20,
    ensures
        r@ == ipv4_packet_payload(ip@),
{
    let hl = ((ip[0] % 16) as usize) * 4;
    let start = if hl > 20 { hl } else { 20 };
    let total = (ip[2] as usize) * 256 + (ip[3] as usize);
    let plen = if total > hl { total - hl } else { 0 };
    let end = if start + plen < ip.len() { start + plen } else { ip.len() };
    if ip.len() <= start {
        let e = slice_range(ip, 0, 0);
        assert(e@ =~= seq![]);
        e
    } else {
        slice_range(ip, start, end)
    }
}

/// The source port and flags of a TCP segment carried over IPv4 in an
/// Ethernet frame, when the frame is one.
pub open spec fn tcp_reply_spec(data: Seq<u8>) -> Option<(u16, u8)> {
    if data.len() < 14 || be16(data[12], data[13]) != 0x0800 {
        None
    } else {
        let ip = eth_payload(data);
        if ip.len() < 20 || ip[9] != 6 {
            None
        } else {
            let tcp = ipv4_packet_payload(ip);
            if tcp.len() < 20 {
                None
            } else {
                Some((be16(tcp[0], tcp[1]), tcp[13]))
            }
        }
    }
}

/// Parses a TCP reply from a captured Ethernet frame: its source port and flags.
pub fn parse_tcp_reply(data: &[u8]) -> (r: Option<(u16, u8)>)
    ensures
        r == tcp_reply_spec(data@),
{
    if data.len() < 14 {
        return None;
    }
    if read_be16(data, 12) != 0x0800 {
        return None;
    }
    let ip = slice_range(data, 14, data.len());
    if ip.len() < 20 || ip[9] != 6 {
        return None;
    }
    let tcp = ipv4_payload_of(ip);
    if tcp.len() < 20 {
        return None;
    }
    Some((read_be16(tcp, 0), tcp[13]))
}

/// An inbound ICMP reply, for ping and traceroute.
#[derive(Clone, Copy, Debug, PartialEq, Eq, Structural)]
pub enum IcmpResponse {
    /// Final hop: destination sent an EchoReply.
    EchoReply { seq: u16, src: Ipv4 },
    /// Intermediate hop: a router sent TimeExceeded, embedding the original
    /// ICMP header so we can recover the sequence number.
    TimeExceeded { seq: u16, src: Ipv4 },
}

/// The bytes of `s` after its first eight.
pub open spec fn after_eight(s: Seq<u8>) -> Seq<u8> {
    s.subrange(8, s.len() as int)
}

/// The ICMP message of an IPv4 frame with protocol ICMP, when there is one.
pub open spec fn icmp_message(data: Seq<u8>) -> Option<(Ipv4, Seq<u8>)> {
    if data.len() < 14 || be16(data[12], data[13]) != 0x0800 {
        None
    } else {
        let ip = eth_payload(data);
        if ip.len() < 20 || ip[9] != 1 {
            None
        } else {
            let src = Ipv4 { a: ip[12], b: ip[13], c: ip[14], d: ip[15] };
            let icmp = ipv4_packet_payload(ip);
            if icmp.len() < 4 {
                None
            } else {
                Some((src, icmp))
            }
        }
    }
}

/// What a captured frame reads as: an echo reply with its sequence number, or a
/// time-exceeded message with the sequence number of the probe it embeds.
pub open spec fn icmp_response_spec(data: Seq<u8>) -> Option<IcmpResponse> {
    match icmp_message(data) {
        Some((src, icmp)) => if icmp[0] == 0 {
            if icmp.len() < 8 {
                None
            } else {
                Some(IcmpResponse::EchoReply { seq: be16(icmp[6], icmp[7]), src })
            }
        } else if icmp[0] == 11 {
            let inner = after_eight(icmp);
            if icmp.len() < 8 || inner.len() < 20 {
                None
            } else {
                let inner_icmp = ipv4_packet_payload(inner);
                if inner_icmp.len() < 8 {
                    None
                } else {
                    Some(IcmpResponse::TimeExceeded { seq: be16(inner_icmp[6], inner_icmp[7]), src })
                }
            }
        } else {
            None
        },
        None => None,
    }
}

/// The ICMP part of a frame, when it is an IPv4 frame carrying ICMP.
fn icmp_part(data: &[u8]) -> (r: Option<(Ipv4, &[u8])>)
    ensures
        match icmp_message(data@) {
            Some((src, icmp)) => match r {
                Some((s2, i2)) => s2 == src && i2@ == icmp,
                None => false,
            },
            None => r is None,
        },
{
    if data.len() < 14 {
        return None;
    }
    if read_be16(data, 12) != 0x0800 {
        return None;
    }
    let ip = slice_range(data, 14, data.len());
    if ip.len() < 20 || ip[9] != 1 {
        return None;
    }
    let src = Ipv4 { a: ip[12], b: ip[13], c: ip[14], d: ip[15] };
    let icmp = ipv4_payload_of(ip);
    if icmp.len() < 4 {
        return None;
    }
    Some((src, icmp))
}

/// Parses a raw Ethernet frame into an [`IcmpResponse`].
/// Returns `None` if the frame isn't an ICMP echo-reply or time-exceeded
/// packet, or if any layer fails to parse.
pub fn parse_icmp_packet(data: &[u8]) -> (r: Option<IcmpResponse>)
    ensures
        r == icmp_response_spec(data@),
{
    match icmp_part(data) {
        Some((src, icmp)) => {
            if icmp[0] == 0 {
                if icmp.len() < 8 {
                    return None;
                }
                Some(IcmpResponse::EchoReply { seq: read_be16(icmp, 6), src })
            } else if icmp[0] == 11 {
                if icmp.len() < 8 {
                    return None;
                }
                let inner = slice_range(icmp, 8, icmp.len());
                if inner.len() < 20 {
                    return None;
                }
                let inner_icmp = ipv4_payload_of(inner);
                if inner_icmp.len() < 8 {
                    return None;
                }
                Some(
                    IcmpResponse::TimeExceeded {
                        seq: read_be16(inner_icmp, 6),
                        src,
                    },
                )
            } else {
                None
            }
        },
        None => None,
    }
}

/// The sender of an ARP reply carried in an Ethernet frame: its IPv4 address and
/// its MAC address.
pub open spec fn arp_reply_spec(data: Seq<u8>) -> Option<(Ipv4, Seq<u8>)> {
    if data.len() < 14 || be16(data[12], data[13]) != 0x0806 {
        None
    } else {
        let arp = eth_payload(data);
        if arp.len() < 28 || be16(arp[6], arp[7]) != 2 {
            None
        } else {
            Some((Ipv4 { a: arp[14], b: arp[15], c: arp[16], d: arp[17] }, arp.subrange(8, 14)))
        }
    }
}

/// Function to parse an ARP reply and return the sender's IP and MAC address
pub fn parse_arp_reply(packet: &[u8]) -> (r: Option<(Ipv4, [u8; 6])>)
    ensures
        match arp_reply_spec(packet@) {
            Some((ip, mac)) => match r {
                Some((ip2, mac2)) => ip2 == ip && mac2@ == mac,
                None => false,
            },
            None => r is None,
        },
{
    if packet.len() < 14 {
        return None;
    }
    if read_be16(packet, 12) != 0x0806 {
        return None;
    }
    if packet.len() < 42 {
        return None;
    }
    if read_be16(packet, 20) != 2 {
        return None;
    }
    let ip = Ipv4 { a: packet[28], b: packet[29], c: packet[30], d: packet[31] };
    let mac = [packet[22], packet[23], packet[24], packet[25], packet[26], packet[27]];
    assert(mac@ =~= eth_payload(packet@).subrange(8, 14));
    Some((ip, mac))
}

/// The broadcast ARP request of `source_mac`/`source_ip` asking for `target_ip`:
/// an Ethernet header to the broadcast address with EtherType ARP, then the
/// request for Ethernet and IPv4 with a zero target MAC.
pub open spec fn arp_request_bytes(source_mac: Seq<u8>, source_ip: Ipv4, target_ip: Ipv4) -> Seq<u8> {
    seq![0xffu8, 0xff, 0xff, 0xff, 0xff, 0xff] + source_mac + seq![0x08u8, 0x06]
        + seq![0x00u8, 0x01, 0x08, 0x00, 6, 4, 0x00, 0x01] + source_mac + seq![
        source_ip.a,
        source_ip.b,
        source_ip.c,
        source_ip.d,
    ] + seq![0u8, 0, 0, 0, 0, 0] + seq![target_ip.a, target_ip.b, target_ip.c, target_ip.d]
}

/// Appends every byte of `bytes`.
fn push_bytes(v: &mut Vec<u8>, bytes: &[u8])
    ensures
        final(v)@ == old(v)@ + bytes@,
{
    let mut i: usize = 0;
    while i < bytes.len()
        invariant
            i <= bytes@.len(),
            v@ == old(v)@ + bytes@.subrange(0, i as int),
        decreases bytes@.len() - i,
    {
        v.push(bytes[i]);
        proof {
            assert(bytes@.subrange(0, i + 1) == bytes@.subrange(0, i as int).push(bytes@[i as int]));
        }
        i = i + 1;
    }
    assert(bytes@.subrange(0, bytes@.len() as int) == bytes@);
}

/// Builds the ARP request frame that asks who has `target_ip`.
pub fn build_arp_request(source_mac: &[u8; 6], source_ip: Ipv4, target_ip: Ipv4) -> (frame: Vec<u8>)
    ensures
        frame@ == arp_request_bytes(source_mac@, source_ip, target_ip),
        frame@.len() == 42,
{
    let mut v: Vec<u8> = Vec::new();
    push_bytes(&mut v, &[0xff, 0xff, 0xff, 0xff, 0xff, 0xff]);
    push_bytes(&mut v, source_mac);
    push_bytes(&mut v, &[0x08, 0x06]);
    push_bytes(&mut v, &[0x00, 0x01, 0x08, 0x00, 6, 4, 0x00, 0x01]);
    push_bytes(&mut v, source_mac);
    push_bytes(&mut v, &[source_ip.a, source_ip.b, source_ip.c, source_ip.d]);
    push_bytes(&mut v, &[0, 0, 0, 0, 0, 0]);
    push_bytes(&mut v, &[target_ip.a, target_ip.b, target_ip.c, target_ip.d]);
    assert(v@ =~= arp_request_bytes(source_mac@, source_ip, target_ip));
    v
}

/// A request built by `build_arp_request` reads back, as an ARP frame, with the
/// request operation, the sender's addresses and the asked-for address; the
/// `view` summary shows it as a request, and it is not taken for a reply.
pub proof fn law_arp_request_layout(source_mac: Seq<u8>, source_ip: Ipv4, target_ip: Ipv4)
    requires
        source_mac.len() == 6,
    ensures
        ({
            let f = arp_request_bytes(source_mac, source_ip, target_ip);
            &&& be16(f[12], f[13]) == 0x0806
            &&& be16(f[20], f[21]) == 1
            &&& arp_reply_spec(f) is None
            &&& arp_summarizable(f.subrange(14, 42))
            &&& arp_op_name(be16(f[20], f[21])) == "Request"
            &&& f.subrange(22, 28) == source_mac
            &&& f.subrange(28, 32) == seq![source_ip.a, source_ip.b, source_ip.c, source_ip.d]
            &&& f.subrange(38, 42) == seq![target_ip.a, target_ip.b, target_ip.c, target_ip.d]
        }),
{
    let f = arp_request_bytes(source_mac, source_ip, target_ip);
    assert(f.subrange(22, 28) =~= source_mac);
    assert(f.subrange(28, 32) =~= seq![source_ip.a, source_ip.b, source_ip.c, source_ip.d]);
    assert(f.subrange(38, 42) =~= seq![target_ip.a, target_ip.b, target_ip.c, target_ip.d]);
}

/// The TCP window size and window-scale shift that the probes announce, as the
/// operating system `os` (as `std::env::consts::OS` names it) would.
pub open spec fn os_tcp_defaults(os: Seq<char>) -> (u16, u8) {
    if os == "linux"@ {
        (64240, 7)
    } else if os == "windows"@ {
        (65535, 8)
    } else if os == "macos"@ {
        (65535, 6)
    } else {
        (65535, 7)
    }
}

/// The window size and window-scale shift the probes announce (see
/// `os_tcp_defaults`).
pub fn get_os_tcp_defaults(os: &str) -> (r: (u16, u8))
    ensures
        r == os_tcp_defaults(os@),
{
    let o = chars_of(os);
    let linux = chars_of("linux");
    let windows = chars_of("windows");
    let macos = chars_of("macos");
    if chars_eq(&o, &linux) {
        (64240, 7)
    } else if chars_eq(&o, &windows) {
        (65535, 8)
    } else if chars_eq(&o, &macos) {
        (65535, 6)
    } else {
        (65535, 7)
    }
}

/// The big-endian bytes of a 16-bit number.
pub open spec fn be16_bytes(n: u16) -> Seq<u8> {
    seq![(n / 256) as u8, (n % 256) as u8]
}

/// The big-endian bytes of a 32-bit number.
pub open spec fn be32_bytes(n: u32) -> Seq<u8> {
    seq![(n / 16777216) as u8, ((n / 65536) % 256) as u8, ((n / 256) % 256) as u8, (n % 256) as u8]
}

/// A TCP header without options and with a zero checksum and urgent pointer.
pub open spec fn tcp_base_header(
    source_port: u16,
    dest_port: u16,
    sequence: u32,
    ack: u32,
    offset_byte: u8,
    flags: u8,
    window: u16,
) -> Seq<u8> {
    be16_bytes(source_port) + be16_bytes(dest_port) + be32_bytes(sequence) + be32_bytes(ack)
        + seq![offset_byte, flags] + be16_bytes(window) + seq![0u8, 0, 0, 0]
}

/// The 40-byte SYN probe before its checksum: data offset 10 words, the SYN
/// flag, and the options MSS 1460, SACK permitted, timestamps (`tsval`, 0) and
/// window scale `wscale`, padded with a NOP.
pub open spec fn syn_segment_bytes(
    source_port: u16,
    dest_port: u16,
    sequence: u32,
    window: u16,
    wscale: u8,
    tsval: u32,
) -> Seq<u8> {
    tcp_base_header(source_port, dest_port, sequence, 0, 0xa0, 0x02, window) + seq![
        2u8,
        4,
        0x05,
        0xb4,
        4,
        2,
        8,
        10,
    ] + be32_bytes(tsval) + seq![0u8, 0, 0, 0, 3, 3, wscale, 1]
}

/// The 36-byte ACK (or FIN) probe before its checksum: data offset 9 words, the
/// ACK flag (FIN for a FIN probe), and the options timestamps (`tsval`, 0) and
/// window scale `wscale`, padded with NOPs.
pub open spec fn ack_segment_bytes(
    source_port: u16,
    dest_port: u16,
    sequence: u32,
    ack: u32,
    fin_probe: bool,
    window: u16,
    wscale: u8,
    tsval: u32,
) -> Seq<u8> {
    tcp_base_header(
        source_port,
        dest_port,
        sequence,
        ack,
        0x90,
        if fin_probe { 0x01u8 } else { 0x10u8 },
        window,
    ) + seq![8u8, 10] + be32_bytes(tsval) + seq![0u8, 0, 0, 0, 3, 3, wscale, 1, 1, 1]
}

/// The sum of the IPv4 pseudo-header of a TCP segment of `len` bytes from
/// `source` to `destination`: both addresses as two words each, the protocol
/// number (6) and the length.
pub open spec fn tcp_pseudo_sum(len: nat, source: Ipv4, destination: Ipv4) -> nat {
    (source.a as nat * 256 + source.b as nat) + (source.c as nat * 256 + source.d as nat) + (
    destination.a as nat * 256 + destination.b as nat) + (destination.c as nat * 256
        + destination.d as nat) + 6 + len
}

/// The TCP checksum over IPv4 of `segment` from `source` to `destination`, as
/// the packet library computes it: the complement of the ones'-complement sum
/// of the pseudo-header and the segment's words, the checksum field (word 8)
/// left out.
pub open spec fn tcp_ipv4_checksum_spec(segment: Seq<u8>, source: Ipv4, destination: Ipv4) -> u16 {
    complement(tcp_pseudo_sum(segment.len(), source, destination) + be_word_sum(segment, 8))
}

/// `pnet::packet::tcp::ipv4_checksum`: the TCP checksum of `segment` sent from
/// `source` to `destination` (see `tcp_ipv4_checksum_spec`). At most 65535
/// bytes: the library adds the words into a 32-bit sum.
#[verifier::external_body]
fn tcp_ipv4_checksum(segment: &[u8], source: Ipv4, destination: Ipv4) -> (r: u16)
    requires
        20 <= segment@.len() <= 65535,
    ensures
        r == tcp_ipv4_checksum_spec(segment@, source, destination),
{
    let packet = pnet::packet::tcp::TcpPacket::new(segment).unwrap();
    let s = pnet::util::core_net::Ipv4Addr::new(source.a, source.b, source.c, source.d);
    let d = pnet::util::core_net::Ipv4Addr::new(destination.a, destination.b, destination.c, destination.d);
    pnet::packet::tcp::ipv4_checksum(&packet, &s, &d)
}

/// A segment with its checksum written into bytes 16 and 17.
pub open spec fn with_tcp_checksum(segment: Seq<u8>, source: Ipv4, destination: Ipv4) -> Seq<u8> {
    let c = tcp_ipv4_checksum_spec(segment, source, destination);
    segment.update(16, (c / 256) as u8).update(17, (c % 256) as u8)
}

/// `rand::random::<u32>()`: a random 32-bit number; any value may come out.
#[verifier::external_body]
fn random_u32() -> u32 {
    rand::random::<u32>()
}

/// `rand::random::<u16>()`: a random 16-bit number; any value may come out.
#[verifier::external_body]
fn random_u16() -> u16 {
    rand::random::<u16>()
}

/// `rand::random_range(low..high)`: a random number in `low..high`.
#[verifier::external_body]
fn random_u16_in(low: u16, high: u16) -> (r: u16)
    requires
        low < high,
    ensures
        low <= r < high,
{
    rand::random_range(low..high)
}

/// Appends the big-endian bytes of a 16-bit number.
fn push_be16(v: &mut Vec<u8>, n: u16)
    ensures
        final(v)@ == old(v)@ + be16_bytes(n),
{
    v.push((n / 256) as u8);
    v.push((n % 256) as u8);
    assert(final(v)@ =~= old(v)@ + be16_bytes(n));
}

/// Appends the big-endian bytes of a 32-bit number.
fn push_be32(v: &mut Vec<u8>, n: u32)
    ensures
        final(v)@ == old(v)@ + be32_bytes(n),
{
    v.push((n / 16777216) as u8);
    v.push(((n / 65536) % 256) as u8);
    v.push(((n / 256) % 256) as u8);
    v.push((n % 256) as u8);
    assert(final(v)@ =~= old(v)@ + be32_bytes(n));
}

/// Writes the checksum of the segment into bytes 16 and 17.
fn fill_tcp_checksum(v: &mut Vec<u8>, source: Ipv4, destination: Ipv4)
    requires
        20 <= old(v)@.len() <= 65535,
    ensures
        final(v)@ == with_tcp_checksum(old(v)@, source, destination),
{
    let c = tcp_ipv4_checksum(v.as_slice(), source, destination);
    v.set(16, (c / 256) as u8);
    v.set(17, (c % 256) as u8);
}

/// The millisecond clock reading put in the TCP timestamp option: its low 32 bits.
pub fn tcp_timestamp_value(millis: u128) -> (r: u32)
    ensures
        r == millis % 0x1_0000_0000,
{
    (millis % 0x1_0000_0000) as u32
}

/// A SYN packet is the initial TCP handshake packet; you hope to see a SYN and
/// ACK response from an open port. Builds the 40-byte TCP segment with a random
/// initial sequence number, the given window and window scale, and the
/// timestamp `tsval`, checksummed for `source_ip` to `dest_ip`.
pub fn build_syn_packet(
    source_ip: Ipv4,
    dest_ip: Ipv4,
    dest_port: u16,
    source_port: u16,
    window: u16,
    wscale: u8,
    tsval: u32,
) -> (segment: Vec<u8>)
    ensures
        segment@.len() == 40,
        segment@ == with_tcp_checksum(
            syn_segment_bytes(
                source_port,
                dest_port,
                be32(segment@[4], segment@[5], segment@[6], segment@[7]),
                window,
                wscale,
                tsval,
            ),
            source_ip,
            dest_ip,
        ),
{
    let sequence = random_u32();
    let mut v: Vec<u8> = Vec::new();
    push_be16(&mut v, source_port);
    push_be16(&mut v, dest_port);
    push_be32(&mut v, sequence);
    push_be32(&mut v, 0);
    push_bytes(&mut v, &[0xa0, 0x02]);
    push_be16(&mut v, window);
    push_bytes(&mut v, &[0, 0, 0, 0]);
    push_bytes(&mut v, &[2, 4, 0x05, 0xb4, 4, 2, 8, 10]);
    push_be32(&mut v, tsval);
    push_bytes(&mut v, &[0, 0, 0, 0, 3, 3, wscale, 1]);
    let ghost unsummed = v@;
    assert(unsummed =~= syn_segment_bytes(source_port, dest_port, sequence, window, wscale, tsval));
    fill_tcp_checksum(&mut v, source_ip, dest_ip);
    proof {
        assert(v@[4] == unsummed[4] && v@[5] == unsummed[5] && v@[6] == unsummed[6] && v@[7]
            == unsummed[7]);
        lemma_be32_roundtrip(sequence);
    }
    v
}

/// Reading back the big-endian bytes of a 32-bit number gives the number.
proof fn lemma_be32_roundtrip(n: u32)
    ensures
        be32(be32_bytes(n)[0], be32_bytes(n)[1], be32_bytes(n)[2], be32_bytes(n)[3]) == n,
{
}

/// An ACK probe abuses RFC 793 where a host is supposed to respond with 'RST'
/// to this invalid handshake. Builds the 36-byte TCP segment with random
/// sequence and acknowledgement numbers, the ACK flag (FIN for a FIN probe),
/// the given window and window scale, and the timestamp `tsval`, checksummed
/// for `source_ip` to `dest_ip`.
pub fn build_ack_packet(
    source_ip: Ipv4,
    dest_ip: Ipv4,
    dest_port: u16,
    source_port: u16,
    fin_probe: bool,
    window: u16,
    wscale: u8,
    tsval: u32,
) -> (segment: Vec<u8>)
    ensures
        segment@.len() == 36,
        segment@ == with_tcp_checksum(
            ack_segment_bytes(
                source_port,
                dest_port,
                be32(segment@[4], segment@[5], segment@[6], segment@[7]),
                be32(segment@[8], segment@[9], segment@[10], segment@[11]),
                fin_probe,
                window,
                wscale,
                tsval,
            ),
            source_ip,
            dest_ip,
        ),
{
    let sequence = random_u32();
    let ack = random_u32();
    let flags: u8 = if fin_probe { 0x01 } else { 0x10 };
    let mut v: Vec<u8> = Vec::new();
    push_be16(&mut v, source_port);
    push_be16(&mut v, dest_port);
    push_be32(&mut v, sequence);
    push_be32(&mut v, ack);
    push_bytes(&mut v, &[0x90, flags]);
    push_be16(&mut v, window);
    push_bytes(&mut v, &[0, 0, 0, 0]);
    push_bytes(&mut v, &[8, 10]);
    push_be32(&mut v, tsval);
    push_bytes(&mut v, &[0, 0, 0, 0, 3, 3, wscale, 1, 1, 1]);
    let ghost unsummed = v@;
    assert(unsummed =~= ack_segment_bytes(
        source_port,
        dest_port,
        sequence,
        ack,
        fin_probe,
        window,
        wscale,
        tsval,
    ));
    fill_tcp_checksum(&mut v, source_ip, dest_ip);
    proof {
        lemma_be32_roundtrip(sequence);
        lemma_be32_roundtrip(ack);
    }
    v
}

/// The header length an IPv4 packet announces (its low nibble of byte 0, in
/// words of four bytes), taken as at least 20 bytes and at most the packet.
pub open spec fn ipv4_header_len(packet: Seq<u8>) -> int {
    let l = (packet[0] % 16) as int * 4;
    if l < 20 {
        20
    } else if l > packet.len() {
        packet.len() as int
    } else {
        l
    }
}

/// The checksum of an IPv4 header as the packet library computes it: the
/// Internet checksum over the header length the packet announces (see
/// `ipv4_header_len`), the checksum field (word 5) left out.
pub open spec fn ipv4_header_checksum_spec(packet: Seq<u8>) -> u16 {
    internet_checksum(packet.subrange(0, ipv4_header_len(packet)), 5)
}

/// `pnet::packet::ipv4::checksum`: the header checksum of the IPv4 packet in
/// `packet` (see `ipv4_header_checksum_spec`).
#[verifier::external_body]
fn ipv4_header_checksum(packet: &[u8]) -> (r: u16)
    requires
        packet@.len() >= 20,
    ensures
        r == ipv4_header_checksum_spec(packet@),
{
    let ip = pnet::packet::ipv4::Ipv4Packet::new(packet).unwrap();
    pnet::packet::ipv4::checksum(&ip)
}

/// An Ethernet header and an IPv4 header (before its checksum) around a TCP
/// segment: version 4, header length 5 words, total length, the given
/// identification, Don't Fragment, TTL 64, protocol TCP.
pub open spec fn tcp_frame_unsummed(
    src_mac: Seq<u8>,
    dst_mac: Seq<u8>,
    source_ip: Ipv4,
    target_ip: Ipv4,
    tcp: Seq<u8>,
    identification: u16,
) -> Seq<u8> {
    dst_mac + src_mac + seq![0x08u8, 0x00] + seq![0x45u8, 0x00] + be16_bytes((20 + tcp.len()) as u16)
        + be16_bytes(identification) + seq![0x40u8, 0x00, 64, 6, 0, 0] + seq![
        source_ip.a,
        source_ip.b,
        source_ip.c,
        source_ip.d,
    ] + seq![target_ip.a, target_ip.b, target_ip.c, target_ip.d] + tcp
}

/// The frame with the IPv4 header checksum in bytes 24 and 25.
pub open spec fn with_ipv4_checksum(frame: Seq<u8>) -> Seq<u8> {
    let c = ipv4_header_checksum_spec(frame.subrange(14, frame.len() as int));
    frame.update(24, (c / 256) as u8).update(25, (c % 256) as u8)
}

/// Wraps an already-checksummed TCP segment in IPv4 and Ethernet headers for a
/// link-layer send, with a random IP identification. The destination MAC is
/// the next hop (the target when on-link, the gateway otherwise).
pub fn build_tcp_frame(
    src_mac: &[u8; 6],
    dst_mac: &[u8; 6],
    source_ip: Ipv4,
    target_ip: Ipv4,
    tcp_payload: &[u8],
) -> (frame: Vec<u8>)
    requires
        tcp_payload@.len() <= 65515,
    ensures
        frame@.len() == 34 + tcp_payload@.len(),
        frame@ == with_ipv4_checksum(
            tcp_frame_unsummed(
                src_mac@,
                dst_mac@,
                source_ip,
                target_ip,
                tcp_payload@,
                be16(frame@[18], frame@[19]),
            ),
        ),
{
    let identification = random_u16();
    let total: u16 = (20 + tcp_payload.len()) as u16;
    let mut v: Vec<u8> = Vec::new();
    push_bytes(&mut v, dst_mac);
    push_bytes(&mut v, src_mac);
    push_bytes(&mut v, &[0x08, 0x00, 0x45, 0x00]);
    push_be16(&mut v, total);
    push_be16(&mut v, identification);
    push_bytes(&mut v, &[0x40, 0x00, 64, 6, 0, 0]);
    push_bytes(&mut v, &[source_ip.a, source_ip.b, source_ip.c, source_ip.d]);
    push_bytes(&mut v, &[target_ip.a, target_ip.b, target_ip.c, target_ip.d]);
    push_bytes(&mut v, tcp_payload);
    let ghost unsummed = v@;
    assert(unsummed =~= tcp_frame_unsummed(
        src_mac@,
        dst_mac@,
        source_ip,
        target_ip,
        tcp_payload@,
        identification,
    ));
    let c = ipv4_header_checksum(slice_range(v.as_slice(), 14, v.len()));
    v.set(24, (c / 256) as u8);
    v.set(25, (c % 256) as u8);
    v
}

/// A probe frame reads back: what `build_tcp_frame` sends around a TCP
/// segment is taken by `parse_tcp_reply` as that segment's source port and
/// flags, whatever identification and header checksum it carries.
pub proof fn law_tcp_frame_reads_back(
    src_mac: Seq<u8>,
    dst_mac: Seq<u8>,
    source_ip: Ipv4,
    target_ip: Ipv4,
    tcp: Seq<u8>,
    identification: u16,
)
    requires
        src_mac.len() == 6,
        dst_mac.len() == 6,
        20 <= tcp.len() <= 65515,
    ensures
        tcp_reply_spec(
            with_ipv4_checksum(tcp_frame_unsummed(src_mac, dst_mac, source_ip, target_ip, tcp, identification)),
        ) == Some((be16(tcp[0], tcp[1]), tcp[13])),
{
    let u = tcp_frame_unsummed(src_mac, dst_mac, source_ip, target_ip, tcp, identification);
    let f = with_ipv4_checksum(u);
    let total = (20 + tcp.len()) as u16;
    assert(u.len() == 34 + tcp.len());
    assert(f.len() == u.len());
    assert(f[12] == 0x08u8 && f[13] == 0x00u8);
    let ip = eth_payload(f);
    assert(ip.len() == 20 + tcp.len());
    assert(ip[0] == 0x45u8);
    assert(ip[9] == 6u8);
    assert(ip[2] == (total / 256) as u8 && ip[3] == (total % 256) as u8);
    assert(be16(ip[2], ip[3]) == total) by {
        assert((total / 256) as u8 == total / 256);
        assert((total % 256) as u8 == total % 256);
    }
    assert((ip[0] % 16) as int * 4 == 20);
    assert(ipv4_packet_payload(ip) =~= tcp) by {
        assert forall|i: int| 0 <= i < tcp.len() implies #[trigger] ip.subrange(20, 20 + tcp.len() as int)[i] == tcp[i] by {
            assert(ip[20 + i] == f[34 + i]);
            assert(f[34 + i] == u[34 + i]);
        }
    }
}

/// The source port of a probe: the one the user gave, else a random one from
/// the ephemeral range 32768..61000.
pub fn choose_source_port(user_source_port: Option<u16>) -> (p: u16)
    ensures
        user_source_port matches Some(u) ==> p == u,
        user_source_port is None ==> 32768 <= p < 61000,
{
    match user_source_port {
        Some(p) => p,
        None => random_u16_in(32768, 61000),
    }
}


/// The ICMP checksum of `packet` as the packet library computes it: the
/// Internet checksum of the packet's words, the checksum field (word 1) left
/// out.
pub open spec fn echo_checksum_spec(packet: Seq<u8>) -> u16 {
    internet_checksum(packet, 1)
}

/// `pnet::packet::icmp::checksum`: the checksum of an ICMP packet (see
/// `echo_checksum_spec`). At most 65535 bytes: the library adds the words into a
/// 32-bit sum.
#[verifier::external_body]
fn echo_checksum(packet: &[u8]) -> (r: u16)
    requires
        4 <= packet@.len() <= 65535,
    ensures
        r == echo_checksum_spec(packet@),
{
    pnet::packet::icmp::checksum(&pnet::packet::icmp::IcmpPacket::new(packet).unwrap())
}

/// The identifier of the echo requests of this process: its id when that fits
/// in 16 bits, else 0.
pub fn echo_identifier(process_id: u32) -> (id: u16)
    ensures
        process_id < 65536 ==> id == process_id,
        process_id >= 65536 ==> id == 0,
{
    if process_id < 65536 {
        process_id as u16
    } else {
        0
    }
}

/// A 64-byte echo request (type 8, code 0) with the given identifier and
/// sequence number and a zero payload, before its checksum is filled in.
pub open spec fn echo_request_unsummed(identifier: u16, sequence: u16) -> Seq<u8> {
    seq![8u8, 0, 0, 0] + be16_bytes(identifier) + be16_bytes(sequence) + Seq::new(56, |i: int| 0u8)
}

/// The echo request with its checksum written big-endian into bytes 2 and 3.
pub open spec fn echo_request_bytes(identifier: u16, sequence: u16) -> Seq<u8> {
    let p = echo_request_unsummed(identifier, sequence);
    let c = echo_checksum_spec(p);
    p.update(2, (c / 256) as u8).update(3, (c % 256) as u8)
}

/// Builds the echo request that a ping (or a traceroute hop) sends, its
/// sequence number being the ping's number (or the hop's TTL).
pub fn build_echo_request(identifier: u16, sequence: u8) -> (packet: Vec<u8>)
    ensures
        packet@ == echo_request_bytes(identifier, sequence as u16),
        packet@.len() == 64,
{
    let mut v: Vec<u8> = Vec::new();
    push_bytes(&mut v, &[8, 0, 0, 0]);
    push_be16(&mut v, identifier);
    push_be16(&mut v, sequence as u16);
    let mut k: usize = 0;
    while k < 56
        invariant
            k <= 56,
            v@ == seq![8u8, 0, 0, 0] + be16_bytes(identifier) + be16_bytes(sequence as u16) + Seq::new(
                k as nat,
                |i: int| 0u8,
            ),
        decreases 56 - k,
    {
        v.push(0);
        proof {
            assert(Seq::new((k + 1) as nat, |i: int| 0u8) =~= Seq::new(k as nat, |i: int| 0u8).push(0u8));
        }
        k = k + 1;
    }
    let c = echo_checksum(v.as_slice());
    v.set(2, (c / 256) as u8);
    v.set(3, (c % 256) as u8);
    v
}

/// Law: an echo request as `build_echo_request` makes it carries a right
/// checksum: its words fold to 0xffff.
pub proof fn law_echo_request_checksum_checks(identifier: u16, sequence: u16)
    ensures
        folded_total(echo_request_bytes(identifier, sequence), 0) == 65535,
{
    let p = echo_request_unsummed(identifier, sequence);
    law_filled_checksum_checks(p, 1, 0);
    assert(0 + be_word_sum(p, 1) == be_word_sum(p, 1));
}

/// Law: a TCP segment with its checksum written in (as the SYN and ACK builders
/// do) checks out with the pseudo-header of the addresses it was summed for.
pub proof fn law_tcp_checksum_checks(segment: Seq<u8>, source: Ipv4, destination: Ipv4)
    requires
        20 <= segment.len(),
    ensures
        folded_total(
            with_tcp_checksum(segment, source, destination),
            tcp_pseudo_sum(segment.len(), source, destination),
        ) == 65535,
{
    law_filled_checksum_checks(segment, 8, tcp_pseudo_sum(segment.len(), source, destination));
}

/// Law: in a frame whose IPv4 header announces 20 bytes (as the frames that
/// `build_tcp_frame` makes do), the header checksum written in checks out.
pub proof fn law_ipv4_header_checksum_checks(frame: Seq<u8>)
    requires
        frame.len() >= 34,
        frame[14] == 0x45,
    ensures
        folded_total(with_ipv4_checksum(frame).subrange(14, 34), 0) == 65535,
{
    let ip = frame.subrange(14, frame.len() as int);
    assert(ipv4_header_len(ip) == 20);
    let h = ip.subrange(0, 20);
    let c = complement(0 + be_word_sum(h, 5));
    assert(ipv4_header_checksum_spec(ip) == c);
    law_filled_checksum_checks(h, 5, 0);
    assert(with_ipv4_checksum(frame).subrange(14, 34) =~= h.update(10, (c / 256) as u8).update(11, (c % 256) as u8));
}

} // verus!
