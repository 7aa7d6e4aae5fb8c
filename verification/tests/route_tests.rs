use netlink_packet_core::{NetlinkHeader, NetlinkMessage, NetlinkPayload, NLM_F_REQUEST};
use netlink_packet_route::route::{RouteAddress, RouteAttribute, RouteMessage, RouteProtocol, RouteScope, RouteType};
use netlink_packet_route::{AddressFamily, RouteNetlinkMessage};
use ntk::ipv4::Ipv4;
use ntk::route::{first_gateway_of, gateway_from_route_reply, route_query, route_request, RouteQuery};

fn ip(a: u8, b: u8, c: u8, d: u8) -> Ipv4 {
    Ipv4 { a, b, c, d }
}

fn new_route_reply(attributes: Vec<RouteAttribute>) -> Vec<u8> {
    let mut msg = RouteMessage::default();
    msg.header.address_family = AddressFamily::Inet;
    msg.attributes = attributes;
    let mut nl = NetlinkMessage::new(NetlinkHeader::default(), RouteNetlinkMessage::NewRoute(msg).into());
    nl.finalize();
    let mut buf = vec![0u8; nl.buffer_len()];
    nl.serialize(&mut buf);
    buf
}

#[test]
fn route_request_asks_for_the_target() {
    let bytes = route_request(ip(8, 8, 4, 4));
    let m = NetlinkMessage::<RouteNetlinkMessage>::deserialize(&bytes).unwrap();
    assert_eq!(m.header.flags, NLM_F_REQUEST);
    assert_eq!(m.header.length as usize, bytes.len());
    match m.payload {
        NetlinkPayload::InnerMessage(RouteNetlinkMessage::GetRoute(r)) => {
            assert_eq!(r.header.destination_prefix_length, 32);
            assert_eq!(r.header.address_family, AddressFamily::Inet);
            assert_eq!(r.header.protocol, RouteProtocol::Unspec);
            assert_eq!(r.header.scope, RouteScope::Universe);
            assert_eq!(r.header.kind, RouteType::Unicast);
            assert_eq!(r.attributes, vec![RouteAttribute::Destination(RouteAddress::Inet([8, 8, 4, 4].into()))]);
        }
        other => panic!("unexpected payload {:?}", other),
    }
}

#[test]
fn gateway_is_read_from_a_route_reply() {
    let reply = new_route_reply(vec![
        RouteAttribute::Destination(RouteAddress::Inet([1, 2, 3, 4].into())),
        RouteAttribute::Gateway(RouteAddress::Inet([192, 168, 1, 1].into())),
        RouteAttribute::Gateway(RouteAddress::Inet([10, 0, 0, 1].into())),
    ]);
    assert_eq!(gateway_from_route_reply(&reply), Some(ip(192, 168, 1, 1)));
}

#[test]
fn reply_without_gateway_gives_none() {
    let reply = new_route_reply(vec![RouteAttribute::Destination(RouteAddress::Inet([1, 2, 3, 4].into()))]);
    assert_eq!(gateway_from_route_reply(&reply), None);
    assert_eq!(gateway_from_route_reply(&[1, 2, 3]), None);
    assert_eq!(gateway_from_route_reply(&route_request(ip(1, 1, 1, 1))), None);
}

#[test]
fn first_gateway_skips_other_attributes() {
    assert_eq!(first_gateway_of(&vec![None, Some(ip(1, 1, 1, 1)), Some(ip(2, 2, 2, 2))]), Some(ip(1, 1, 1, 1)));
    assert_eq!(first_gateway_of(&vec![None, None]), None);
    assert_eq!(first_gateway_of(&vec![]), None);
}

#[test]
fn route_query_fields() {
    assert_eq!(
        route_query(ip(10, 1, 2, 3)),
        RouteQuery { family: 2, dst_prefix_len: 32, protocol: 0, scope: 0, kind: 1, flags: 1, destination: ip(10, 1, 2, 3) }
    );
}
