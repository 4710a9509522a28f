use tokio_nat_traversal::addr::{Ipv4Addr, Ipv6Addr, SocketAddr, SocketAddrV4, SocketAddrV6};
use tokio_nat_traversal::echo_req;
use tokio_nat_traversal::igd_async::{get_any_address_request, GetAnyAddressError};
use tokio_nat_traversal::mc::{is_echo_response_from, tcp_echo_answer, udp_echo_answer, Mc, QueryPublicAddrError, ServerSet};
use tokio_nat_traversal::protocol::Protocol;
use tokio_nat_traversal::udp::rendezvous_server::{echo_reply, is_echo_request};

fn v4(a: u8, b: u8, c: u8, d: u8, port: u16) -> SocketAddr {
    SocketAddr::V4(SocketAddrV4 { ip: Ipv4Addr::new(a, b, c, d), port })
}

#[test]
fn echo_request_is_the_ascii_text() {
    assert_eq!(&echo_req(), b"ECHOADDR");
    assert!(is_echo_request(b"ECHOADDR"));
    assert!(!is_echo_request(b"ECHOADD"));
    assert!(!is_echo_request(b"ECHOADDRX"));
    assert!(!is_echo_request(b"echoaddr"));
    assert!(!is_echo_request(b""));
}

#[test]
fn echo_response_must_come_from_the_queried_server() {
    let server = v4(8, 8, 8, 8, 1000);
    assert!(is_echo_response_from(&server, &server));
    assert!(!is_echo_response_from(&server, &v4(8, 8, 8, 8, 1001)));
}

#[test]
fn port_mapping_request_for_ipv4() {
    let local = SocketAddrV4 { ip: Ipv4Addr::new(192, 168, 1, 5), port: 6000 };
    let req = get_any_address_request(Protocol::Udp, SocketAddr::V4(local)).unwrap();
    assert_eq!(req.protocol, Protocol::Udp);
    assert_eq!(req.local_addr, local);
    assert_eq!(req.lease_duration, 0);
    assert_eq!(req.description, "tokio-nat-traversal");
    assert_eq!(req.search_ip, Ipv4Addr::new(192, 168, 1, 5));
    assert_eq!(req.search_timeout_ms, 200);
}

#[test]
fn port_mapping_request_refuses_ipv6() {
    let local = SocketAddrV6 { ip: Ipv6Addr { bits: 1 }, port: 6000, flowinfo: 0, scope_id: 0 };
    match get_any_address_request(Protocol::Tcp, SocketAddr::V6(local)) {
        Err(GetAnyAddressError::Ipv6NotSupported) => {},
        _ => panic!("IPv6 must be refused"),
    }
}

#[test]
fn server_set_adds_once_and_removes() {
    let a = v4(1, 1, 1, 1, 1);
    let b = v4(2, 2, 2, 2, 2);
    let mut set = ServerSet::new();
    assert!(set.add_server(&a));
    assert!(set.add_server(&b));
    assert!(!set.add_server(&a));
    assert_eq!(set.iter_servers(), vec![a, b]);
    assert!(set.contains(&a));
    set.remove_server(&a);
    assert_eq!(set.iter_servers(), vec![b]);
    assert!(!set.contains(&a));
    set.remove_server(&a);
    assert_eq!(set.iter_servers(), vec![b]);
}

#[test]
fn server_set_add_then_remove_restores() {
    let a = v4(1, 1, 1, 1, 1);
    let b = v4(2, 2, 2, 2, 2);
    let mut set = ServerSet::new();
    set.add_server(&b);
    set.add_server(&a);
    set.remove_server(&a);
    assert_eq!(set.iter_servers(), vec![b]);
}

#[test]
fn registry_keeps_protocols_apart() {
    let a = v4(3, 3, 3, 3, 3);
    let b = v4(4, 4, 4, 4, 4);
    let mut mc = Mc::new();
    assert!(mc.add_server(Protocol::Tcp, &a));
    assert!(mc.add_server(Protocol::Udp, &b));
    assert!(!mc.add_server(Protocol::Tcp, &a));
    assert!(mc.add_server(Protocol::Udp, &a));
    mc.remove_server(Protocol::Udp, &a);
    assert_eq!(mc.iter_servers(Protocol::Tcp), vec![a]);
    assert_eq!(mc.iter_servers(Protocol::Udp), vec![b]);
    mc.remove_server(Protocol::Udp, &a);
    assert_eq!(mc.iter_servers(Protocol::Udp), vec![b]);
    mc.remove_server(Protocol::Tcp, &a);
    assert_eq!(mc.iter_servers(Protocol::Tcp), vec![]);
    assert_eq!(mc.iter_servers(Protocol::Udp), vec![b]);
}

fn encoded(text: &str) -> Vec<u8> {
    let mut bytes = (text.len() as u64).to_le_bytes().to_vec();
    bytes.extend_from_slice(text.as_bytes());
    bytes
}

#[test]
fn echo_reply_encodes_the_sender() {
    let from = v4(1, 2, 3, 4, 5);
    assert_eq!(echo_reply(b"ECHOADDR", &from), Some(encoded("1.2.3.4:5")));
    assert_eq!(echo_reply(b"HELLO", &from), None);
}

#[test]
fn echo_answer_decodes_what_the_server_sent() {
    let from = v4(203, 0, 113, 7, 40000);
    let reply = echo_reply(b"ECHOADDR", &from).unwrap();
    assert_eq!(tcp_echo_answer(&reply).unwrap(), from);
    match tcp_echo_answer(b"junk") {
        Err(QueryPublicAddrError::Deserialize(_)) => {},
        _ => panic!("junk must not decode"),
    }
}

#[test]
fn udp_echo_answer_skips_other_senders() {
    let server = v4(8, 8, 4, 4, 3478);
    let reply = encoded("198.51.100.2:1234");
    assert!(udp_echo_answer(&server, &v4(8, 8, 8, 8, 3478), &reply).is_none());
    match udp_echo_answer(&server, &server, &reply) {
        Some(Ok(a)) => assert_eq!(a, v4(198, 51, 100, 2, 1234)),
        _ => panic!("the server's answer must decode"),
    }
    match udp_echo_answer(&server, &server, &reply[..8]) {
        Some(Err(QueryPublicAddrError::Deserialize(_))) => {},
        _ => panic!("a cut answer must not decode"),
    }
}

#[test]
fn gateway_error_descriptions() {
    assert_eq!(GetAnyAddressError::Ipv6NotSupported.description(), "IPv6 not supported for UPnP");
}
