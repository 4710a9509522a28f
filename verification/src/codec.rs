use vstd::prelude::*;
use crate::addr::{Ipv4Addr, Ipv6Addr, SocketAddr, SocketAddrV4, SocketAddrV6};

verus! {

/// `bincode::ErrorKind`, carried through unchanged.
#[verifier::external_type_specification]
#[verifier::external_body]
pub struct ExBincodeErrorKind(bincode::ErrorKind);

/// The bytes that `bincode::serialize` (with no size limit) writes for a
/// socket address.
pub uninterp spec fn spec_encode_socket_addr(addr: SocketAddr) -> Seq<u8>;

/// The socket address that `bincode::deserialize` reads from the given
/// bytes, or `None` where it fails.
pub uninterp spec fn spec_decode_socket_addr(data: Seq<u8>) -> Option<SocketAddr>;

/// Encodes a socket address with `bincode::serialize` and no size limit.
/// The bytes are `spec_encode_socket_addr(*addr)`. It always succeeds: with
/// no size limit bincode only fails when its writer does, and it writes into
/// a `Vec<u8>`, whose writes do not fail.
#[verifier::external_body]
pub(crate) fn encode_socket_addr(addr: &SocketAddr) -> (r: Result<Vec<u8>, Box<bincode::ErrorKind>>)
    ensures
        r is Ok,
        r matches Ok(bytes) ==> bytes@ == spec_encode_socket_addr(*addr),
{
    let addr = match *addr {
        SocketAddr::V4(a) => core::net::SocketAddr::V4(
            core::net::SocketAddrV4::new(core::net::Ipv4Addr::from(a.ip.bits), a.port),
        ),
        SocketAddr::V6(a) => core::net::SocketAddr::V6(
            core::net::SocketAddrV6::new(core::net::Ipv6Addr::from(a.ip.bits), a.port, a.flowinfo, a.scope_id),
        ),
    };
    bincode::serialize(&addr, bincode::Infinite)
}

/// Decodes a socket address from the given bytes with `bincode::deserialize`.
/// It succeeds exactly when `spec_decode_socket_addr(data)` is `Some`, and
/// then gives that address.
#[verifier::external_body]
pub(crate) fn decode_socket_addr(data: &[u8]) -> (r: Result<SocketAddr, Box<bincode::ErrorKind>>)
    ensures
        r is Ok <==> spec_decode_socket_addr(data@) is Some,
        r matches Ok(a) ==> spec_decode_socket_addr(data@) == Some(a),
{
    let addr: core::net::SocketAddr = bincode::deserialize(data)?;
    Ok(match addr {
        core::net::SocketAddr::V4(a) => SocketAddr::V4(
            SocketAddrV4 { ip: Ipv4Addr { bits: u32::from(*a.ip()) }, port: a.port() },
        ),
        core::net::SocketAddr::V6(a) => SocketAddr::V6(SocketAddrV6 {
            ip: Ipv6Addr { bits: u128::from(*a.ip()) },
            port: a.port(),
            flowinfo: a.flowinfo(),
            scope_id: a.scope_id(),
        }),
    })
}

} // verus!
