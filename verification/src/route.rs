//! The routing question asked of the kernel over netlink when no gateway is
//! known otherwise: the request for the route to a target, and the gateway read
//! from the kernel's answer.
use vstd::prelude::*;
use netlink_packet_core::{NetlinkHeader, NetlinkMessage, NetlinkPayload};
use netlink_packet_route::route::RouteAddress::Inet;
use netlink_packet_route::route::RouteAttribute::{Destination, Gateway};
use netlink_packet_route::route::RouteMessage;
use netlink_packet_route::RouteNetlinkMessage::{self, GetRoute, NewRoute};
use crate::ipv4::Ipv4;

verus! {

/// A netlink route question, as plain numbers: the route header's address
/// family, destination prefix length, protocol, scope and route type, the
/// netlink header's flags, and the destination asked about.
#[derive(Clone, Copy, Debug, PartialEq, Eq, Structural)]
pub struct RouteQuery {
    pub family: u8,
    pub dst_prefix_len: u8,
    pub protocol: u8,
    pub scope: u8,
    pub kind: u8,
    pub flags: u16,
    pub destination: Ipv4,
}

/// The question for the route to `target`: an IPv4 (`AF_INET`, 2) unicast (1)
/// route to the single address (prefix 32), any protocol (0), universe scope
/// (0), sent as a request (`NLM_F_REQUEST`, 1).
pub open spec fn route_query_spec(target: Ipv4) -> RouteQuery {
    RouteQuery { family: 2, dst_prefix_len: 32, protocol: 0, scope: 0, kind: 1, flags: 1, destination: target }
}

/// The question for the route to `target` (see `route_query_spec`).
pub fn route_query(target: Ipv4) -> (q: RouteQuery)
    ensures
        q == route_query_spec(target),
{
    RouteQuery { family: 2, dst_prefix_len: 32, protocol: 0, scope: 0, kind: 1, flags: 1, destination: target }
}

/// The bytes of the netlink `RTM_GETROUTE` message for the question `q`, as
/// the netlink packet library serializes it.
pub uninterp spec fn route_request_spec(q: RouteQuery) -> Seq<u8>;

/// Builds with `netlink_packet_route` a `GetRoute` message whose header takes
/// its numbers from `q` (the other header fields at their defaults) and whose
/// one attribute is `Destination` with `q`'s address, wraps it with
/// `netlink_packet_core::NetlinkMessage` under a default header carrying `q`'s
/// flags, then `finalize`s and `serialize`s it. The bytes are taken as the
/// function `route_request_spec` of `q`; nothing more of them is stated here.
#[verifier::external_body]
fn route_request_bytes(q: &RouteQuery) -> (r: Vec<u8>)
    ensures
        r@ == route_request_spec(*q),
{
    let mut msg = RouteMessage::default();
    msg.header.address_family = q.family.into();
    msg.header.destination_prefix_length = q.dst_prefix_len;
    msg.header.protocol = q.protocol.into();
    msg.header.scope = q.scope.into();
    msg.header.kind = q.kind.into();
    let d = [q.destination.a, q.destination.b, q.destination.c, q.destination.d];
    msg.attributes.push(Destination(Inet(d.into())));
    let mut nl = NetlinkMessage::new(NetlinkHeader::default(), GetRoute(msg).into());
    nl.header.flags = q.flags;
    nl.finalize();
    let mut buf = vec![0u8; nl.buffer_len()];
    nl.serialize(&mut buf);
    buf
}

/// The request to send to the kernel's routing socket to learn the route to
/// `target`: the question `route_query_spec(target)` serialized.
pub fn route_request(target: Ipv4) -> (r: Vec<u8>)
    ensures
        r@ == route_request_spec(route_query_spec(target)),
{
    let q = route_query(target);
    route_request_bytes(&q)
}

/// What a reply from the kernel's routing socket holds, as the netlink packet
/// library reads it: when it is a `NewRoute` message, one entry per route
/// attribute, the address for an IPv4 `Gateway` attribute and nothing for any
/// other; nothing at all when the bytes do not read as such a message.
pub uninterp spec fn route_reply_gateways_spec(reply: Seq<u8>) -> Option<Seq<Option<Ipv4>>>;

/// `NetlinkMessage::<RouteNetlinkMessage>::deserialize` on `reply`, and for a
/// `NewRoute` message its attributes, each an IPv4 `Gateway` address or
/// nothing. Taken as the function `route_reply_gateways_spec` of the bytes;
/// nothing more of it is stated here.
#[verifier::external_body]
fn route_reply_gateways(reply: &[u8]) -> (r: Option<Vec<Option<Ipv4>>>)
    ensures
        match route_reply_gateways_spec(reply@) {
            Some(g) => r matches Some(v) && v@ == g,
            None => r is None,
        },
{
    match NetlinkMessage::<RouteNetlinkMessage>::deserialize(reply).ok()?.payload {
        NetlinkPayload::InnerMessage(NewRoute(m)) => Some(m.attributes.iter().map(|a| match a {
            Gateway(Inet(g)) => {
                let o = g.octets();
                Some(Ipv4 { a: o[0], b: o[1], c: o[2], d: o[3] })
            },
            _ => None,
        }).collect()),
        _ => None,
    }
}

/// The first gateway among the attributes of a route, if any.
pub open spec fn first_gateway(gateways: Seq<Option<Ipv4>>) -> Option<Ipv4>
    decreases gateways.len(),
{
    if gateways.len() == 0 {
        None
    } else if gateways[0] is Some {
        gateways[0]
    } else {
        first_gateway(gateways.drop_first())
    }
}

/// The first gateway among the attributes of a route (see `first_gateway`).
pub fn first_gateway_of(gateways: &Vec<Option<Ipv4>>) -> (gw: Option<Ipv4>)
    ensures
        gw == first_gateway(gateways@),
{
    let mut i: usize = 0;
    assert(gateways@.subrange(0, gateways@.len() as int) =~= gateways@);
    while i < gateways.len()
        invariant
            i <= gateways@.len(),
            first_gateway(gateways@) == first_gateway(gateways@.subrange(i as int, gateways@.len() as int)),
        decreases gateways@.len() - i,
    {
        let ghost rest = gateways@.subrange(i as int, gateways@.len() as int);
        if gateways[i].is_some() {
            assert(rest[0] == gateways@[i as int]);
            return gateways[i];
        }
        assert(rest.drop_first() =~= gateways@.subrange(i + 1, gateways@.len() as int));
        i = i + 1;
    }
    assert(gateways@.subrange(i as int, gateways@.len() as int) =~= Seq::<Option<Ipv4>>::empty());
    None
}

/// The gateway of the route in a reply from the kernel's routing socket: the
/// first IPv4 gateway attribute of a `NewRoute` message, or nothing when the
/// reply is no such message or names no gateway.
pub fn gateway_from_route_reply(reply: &[u8]) -> (gw: Option<Ipv4>)
    ensures
        gw == match route_reply_gateways_spec(reply@) {
            Some(g) => first_gateway(g),
            None => None,
        },
{
    match route_reply_gateways(reply) {
        Some(g) => first_gateway_of(&g),
        None => None,
    }
}

} // verus!
