use tokio_nat_traversal::addr::Ipv4Addr;
use tokio_nat_traversal::igd_async::{in_same_subnet, local_addr_to_gateway_among, local_addr_to_gateway_in};
use tokio_nat_traversal::os::{IfAddr, Ifv4Addr, Ifv6Addr};
use tokio_nat_traversal::addr::Ipv6Addr;

#[test]
fn it_returns_true_when_given_addresses_are_in_same_subnet() {
    assert!(in_same_subnet(
        Ipv4Addr::new(192, 168, 1, 1),
        Ipv4Addr::new(192, 168, 1, 10),
        Ipv4Addr::new(255, 255, 255, 0)
    ));
}

#[test]
fn it_returns_false_when_given_addresses_are_not_in_same_subnet() {
    assert!(!in_same_subnet(
        Ipv4Addr::new(192, 168, 1, 1),
        Ipv4Addr::new(172, 10, 0, 5),
        Ipv4Addr::new(255, 255, 255, 0)
    ));
}

#[test]
fn ipv4_new_orders_octets_most_significant_first() {
    let a = Ipv4Addr::new(192, 168, 1, 10);
    assert_eq!(a.bits, 0xC0A8_010A);
    assert_eq!(a.octets(), [192, 168, 1, 10]);
}

#[test]
fn subnet_test_with_empty_mask_accepts_any_pair() {
    assert!(in_same_subnet(
        Ipv4Addr::new(10, 0, 0, 1),
        Ipv4Addr::new(192, 168, 7, 9),
        Ipv4Addr::new(0, 0, 0, 0)
    ));
}

#[test]
fn subnet_test_with_full_mask_is_equality() {
    let mask = Ipv4Addr::new(255, 255, 255, 255);
    assert!(in_same_subnet(Ipv4Addr::new(10, 1, 2, 3), Ipv4Addr::new(10, 1, 2, 3), mask));
    assert!(!in_same_subnet(Ipv4Addr::new(10, 1, 2, 3), Ipv4Addr::new(10, 1, 2, 4), mask));
}

#[test]
fn subnet_test_is_symmetric_and_reflexive_on_examples() {
    let a = Ipv4Addr::new(172, 16, 5, 4);
    let b = Ipv4Addr::new(172, 16, 200, 1);
    let m = Ipv4Addr::new(255, 255, 0, 0);
    assert!(in_same_subnet(a, a, m));
    assert_eq!(in_same_subnet(a, b, m), in_same_subnet(b, a, m));
    assert!(in_same_subnet(a, b, m));
    assert!(!in_same_subnet(a, b, Ipv4Addr::new(255, 255, 255, 0)));
}

#[test]
fn gateway_address_picks_first_interface_on_its_subnet() {
    let ifs = vec![
        IfAddr::V6(Ifv6Addr { ip: Ipv6Addr { bits: 1 }, netmask: Ipv6Addr { bits: u128::MAX } }),
        IfAddr::V4(Ifv4Addr { ip: Ipv4Addr::new(127, 0, 0, 1), netmask: Ipv4Addr::new(255, 0, 0, 0) }),
        IfAddr::V4(Ifv4Addr { ip: Ipv4Addr::new(192, 168, 1, 20), netmask: Ipv4Addr::new(255, 255, 255, 0) }),
        IfAddr::V4(Ifv4Addr { ip: Ipv4Addr::new(192, 168, 1, 30), netmask: Ipv4Addr::new(255, 255, 255, 0) }),
    ];
    assert_eq!(
        local_addr_to_gateway_among(&ifs, Ipv4Addr::new(192, 168, 1, 1)),
        Some(Ipv4Addr::new(192, 168, 1, 20))
    );
    assert_eq!(local_addr_to_gateway_among(&ifs, Ipv4Addr::new(10, 0, 0, 1)), None);
}

#[test]
fn gateway_address_not_found_is_an_error() {
    let ifs = vec![IfAddr::V4(Ifv4Addr { ip: Ipv4Addr::new(127, 0, 0, 1), netmask: Ipv4Addr::new(255, 0, 0, 0) })];
    let err = local_addr_to_gateway_in(Ok(ifs.clone()), Ipv4Addr::new(192, 168, 1, 1)).unwrap_err();
    assert_eq!(err.kind(), std::io::ErrorKind::NotFound);
    assert_eq!(
        local_addr_to_gateway_in(Ok(ifs), Ipv4Addr::new(127, 1, 2, 3)).unwrap(),
        Ipv4Addr::new(127, 0, 0, 1)
    );
    let read_err = std::io::Error::new(std::io::ErrorKind::PermissionDenied, "no interfaces");
    let err = local_addr_to_gateway_in(Err(read_err), Ipv4Addr::new(127, 1, 2, 3)).unwrap_err();
    assert_eq!(err.kind(), std::io::ErrorKind::PermissionDenied);
}
