use vstd::prelude::*;
use crate::addr::{Ipv4Addr, Ipv6Addr};

verus! {

/// `std::io::Error`, carried through unchanged.
#[verifier::external_type_specification]
#[verifier::external_body]
pub struct ExIoError(std::io::Error);

/// An IPv4 address of a network interface, with its netmask.
#[derive(Clone, Copy, Debug, PartialEq, Eq, Structural)]
pub struct Ifv4Addr {
    pub ip: Ipv4Addr,
    pub netmask: Ipv4Addr,
}

/// An IPv6 address of a network interface, with its netmask.
#[derive(Clone, Copy, Debug, PartialEq, Eq, Structural)]
pub struct Ifv6Addr {
    pub ip: Ipv6Addr,
    pub netmask: Ipv6Addr,
}

/// One address of a network interface of this machine.
#[derive(Clone, Copy, Debug, PartialEq, Eq, Structural)]
pub enum IfAddr {
    V4(Ifv4Addr),
    V6(Ifv6Addr),
}

/// Lists the addresses of this machine's network interfaces through
/// `get_if_addrs::get_if_addrs`, one entry per interface address, in the
/// order that function gives them. What it lists depends on the machine, so
/// nothing is promised of the result.
#[verifier::external_body]
pub(crate) fn interface_addrs() -> (r: Result<Vec<IfAddr>, std::io::Error>) {
    let ifs = get_if_addrs::get_if_addrs()?;
    Ok(ifs.into_iter().map(|iface| match iface.addr {
        get_if_addrs::IfAddr::V4(a) => IfAddr::V4(Ifv4Addr {
            ip: Ipv4Addr { bits: u32::from(a.ip) },
            netmask: Ipv4Addr { bits: u32::from(a.netmask) },
        }),
        get_if_addrs::IfAddr::V6(a) => IfAddr::V6(Ifv6Addr {
            ip: Ipv6Addr { bits: u128::from(a.ip) },
            netmask: Ipv6Addr { bits: u128::from(a.netmask) },
        }),
    }).collect())
}

/// Builds an `std::io::Error` of kind `NotFound` with the given message
/// through `std::io::Error::new`. Nothing about the error value is stated.
#[verifier::external_body]
pub(crate) fn io_error_not_found(msg: &str) -> (r: std::io::Error) {
    std::io::Error::new(std::io::ErrorKind::NotFound, msg)
}

} // verus!
