use tokio_nat_traversal::ip_addr::expand_ipv4_from;
use tokio_nat_traversal::socket_addr::{expand_socket_from, expand_socket_v4_with};
use tokio_nat_traversal::addr::{IpAddr, Ipv4Addr, Ipv6Addr, SocketAddr, SocketAddrV4, SocketAddrV6};
use tokio_nat_traversal::ip_addr::{v4_interface_ips_of, v6_interface_ips_of, IpAddrExt, Ipv4AddrExt, Ipv6AddrExt};
use tokio_nat_traversal::os::{IfAddr, Ifv4Addr, Ifv6Addr};
use tokio_nat_traversal::socket_addr::{SocketAddrExt, SocketAddrV4Ext, SocketAddrV6Ext};
use tokio_nat_traversal::udp::rendezvous_server::UdpRendezvousServer;

fn v4(a: u8, b: u8, c: u8, d: u8, port: u16) -> SocketAddr {
    SocketAddr::V4(SocketAddrV4 { ip: Ipv4Addr::new(a, b, c, d), port })
}

#[test]
fn specified_ipv4_expands_to_itself() {
    let ip = Ipv4Addr::new(10, 0, 0, 7);
    assert_eq!(Ipv4AddrExt::expand_local_unspecified(&ip).unwrap(), vec![ip]);
    let ip = IpAddr::V4(ip);
    assert_eq!(IpAddrExt::expand_local_unspecified(&ip).unwrap(), vec![ip]);
}

#[test]
fn specified_ipv6_expands_to_itself() {
    let ip = Ipv6Addr { bits: 1 };
    assert_eq!(Ipv6AddrExt::expand_local_unspecified(&ip).unwrap(), vec![ip]);
}

#[test]
fn specified_socket_addrs_expand_to_themselves() {
    let a = v4(192, 168, 0, 3, 4000);
    assert_eq!(SocketAddrExt::expand_local_unspecified(&a).unwrap(), vec![a]);
    let b = SocketAddrV6 { ip: Ipv6Addr { bits: 0xfe80 << 112 }, port: 9, flowinfo: 3, scope_id: 2 };
    assert_eq!(SocketAddrV6Ext::expand_local_unspecified(&b).unwrap(), vec![b]);
}

#[test]
fn unspecified_ipv4_socket_addr_keeps_port_on_every_interface() {
    let a = SocketAddrV4 { ip: Ipv4Addr::new(0, 0, 0, 0), port: 5555 };
    let expanded = SocketAddrV4Ext::expand_local_unspecified(&a).unwrap();
    for e in &expanded {
        assert_eq!(e.port, 5555);
        assert!(e.ip.bits != 0);
    }
    let all = SocketAddrExt::expand_local_unspecified(&SocketAddr::V4(a)).unwrap();
    assert_eq!(all.len(), expanded.len());
    for (x, y) in all.iter().zip(expanded.iter()) {
        assert_eq!(*x, SocketAddr::V4(*y));
    }
}

#[test]
fn unspecified_ipv6_socket_addr_keeps_port_flowinfo_and_scope() {
    let a = SocketAddrV6 { ip: Ipv6Addr { bits: 0 }, port: 77, flowinfo: 5, scope_id: 6 };
    for e in SocketAddrV6Ext::expand_local_unspecified(&a).unwrap() {
        assert_eq!((e.port, e.flowinfo, e.scope_id), (77, 5, 6));
    }
}

#[test]
fn interface_ips_are_filtered_by_family_in_order() {
    let ifs = vec![
        IfAddr::V4(Ifv4Addr { ip: Ipv4Addr::new(127, 0, 0, 1), netmask: Ipv4Addr::new(255, 0, 0, 0) }),
        IfAddr::V6(Ifv6Addr { ip: Ipv6Addr { bits: 1 }, netmask: Ipv6Addr { bits: u128::MAX } }),
        IfAddr::V4(Ifv4Addr { ip: Ipv4Addr::new(10, 0, 0, 2), netmask: Ipv4Addr::new(255, 255, 255, 0) }),
    ];
    assert_eq!(v4_interface_ips_of(&ifs), vec![Ipv4Addr::new(127, 0, 0, 1), Ipv4Addr::new(10, 0, 0, 2)]);
    assert_eq!(v6_interface_ips_of(&ifs), vec![Ipv6Addr { bits: 1 }]);
}

#[test]
fn rendezvous_server_reports_its_local_address() {
    let a = v4(1, 2, 3, 4, 5);
    let server = UdpRendezvousServer::from_socket(Ok(a)).unwrap();
    assert_eq!(server.local_addr(), a);
    assert_eq!(server.expanded_local_addrs().unwrap(), vec![a]);
}

#[test]
fn rendezvous_server_passes_on_socket_error() {
    let err = std::io::Error::new(std::io::ErrorKind::Other, "no address");
    let r = UdpRendezvousServer::from_socket(Err(err));
    assert_eq!(r.err().unwrap().kind(), std::io::ErrorKind::Other);
}

#[test]
fn expansion_from_a_read_interface_list() {
    let ifs = vec![
        IfAddr::V4(Ifv4Addr { ip: Ipv4Addr::new(127, 0, 0, 1), netmask: Ipv4Addr::new(255, 0, 0, 0) }),
        IfAddr::V6(Ifv6Addr { ip: Ipv6Addr { bits: 1 }, netmask: Ipv6Addr { bits: u128::MAX } }),
        IfAddr::V4(Ifv4Addr { ip: Ipv4Addr::new(10, 0, 0, 2), netmask: Ipv4Addr::new(255, 255, 255, 0) }),
    ];
    let any = v4(0, 0, 0, 0, 80);
    assert_eq!(expand_socket_from(any, Ok(ifs.clone())).unwrap(), vec![v4(127, 0, 0, 1, 80), v4(10, 0, 0, 2, 80)]);
    let err = std::io::Error::new(std::io::ErrorKind::PermissionDenied, "no list");
    assert_eq!(expand_socket_from(any, Err(err)).unwrap_err().kind(), std::io::ErrorKind::PermissionDenied);
    let specified = v4(10, 0, 0, 9, 80);
    let err = std::io::Error::new(std::io::ErrorKind::PermissionDenied, "no list");
    assert_eq!(expand_socket_from(specified, Err(err)).unwrap(), vec![specified]);
    let v6any = SocketAddr::V6(SocketAddrV6 { ip: Ipv6Addr { bits: 0 }, port: 9, flowinfo: 1, scope_id: 2 });
    assert_eq!(
        expand_socket_from(v6any, Ok(ifs.clone())).unwrap(),
        vec![SocketAddr::V6(SocketAddrV6 { ip: Ipv6Addr { bits: 1 }, port: 9, flowinfo: 1, scope_id: 2 })]
    );
    let ips = expand_ipv4_from(Ipv4Addr::new(0, 0, 0, 0), Ok(ifs)).unwrap();
    assert_eq!(ips, vec![Ipv4Addr::new(127, 0, 0, 1), Ipv4Addr::new(10, 0, 0, 2)]);
    let socks = expand_socket_v4_with(SocketAddrV4 { ip: Ipv4Addr::new(0, 0, 0, 0), port: 7 }, Ok(ips)).unwrap();
    assert_eq!(socks.iter().map(|s| s.port).collect::<Vec<_>>(), vec![7, 7]);
}
