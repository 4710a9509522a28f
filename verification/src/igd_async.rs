use vstd::prelude::*;
use crate::addr::{Ipv4Addr, SocketAddr, SocketAddrV4};
use crate::os::{interface_addrs, io_error_not_found, IfAddr};
use crate::protocol::Protocol;

verus! {

/// Whether `a1` and `a2` agree on every bit that `mask` selects, octet by octet.
pub open spec fn spec_in_same_subnet(a1: Ipv4Addr, a2: Ipv4Addr, mask: Ipv4Addr) -> bool {
    forall|i: int|
        0 <= i < 4 ==> #[trigger] (a1.spec_octets()[i] & mask.spec_octets()[i]) == a2.spec_octets()[i]
            & mask.spec_octets()[i]
}

/// `true` if the given IP addresses are in the same subnet, `false` otherwise.
pub fn in_same_subnet(addr1: Ipv4Addr, addr2: Ipv4Addr, subnet_mask: Ipv4Addr) -> (r: bool)
    ensures
        r == spec_in_same_subnet(addr1, addr2, subnet_mask),
{
    let o1 = addr1.octets();
    let o2 = addr2.octets();
    let m = subnet_mask.octets();
    let mut i: usize = 0;
    while i < 4
        invariant
            i <= 4,
            o1@ == addr1.spec_octets(),
            o2@ == addr2.spec_octets(),
            m@ == subnet_mask.spec_octets(),
            forall|j: int|
                0 <= j < i ==> #[trigger] (addr1.spec_octets()[j] & subnet_mask.spec_octets()[j])
                    == addr2.spec_octets()[j] & subnet_mask.spec_octets()[j],
        decreases 4 - i,
    {
        if o1[i] & m[i] != o2[i] & m[i] {
            assert(!((addr1.spec_octets()[i as int] & subnet_mask.spec_octets()[i as int])
                == addr2.spec_octets()[i as int] & subnet_mask.spec_octets()[i as int]));
            return false;
        }
        i = i + 1;
    }
    true
}

/// Two addresses are in the same subnet exactly when they are equal after
/// masking with the subnet mask.
pub proof fn lemma_in_same_subnet_is_masked_equality(a1: Ipv4Addr, a2: Ipv4Addr, mask: Ipv4Addr)
    ensures
        spec_in_same_subnet(a1, a2, mask) <==> (a1.bits & mask.bits) == (a2.bits & mask.bits),
{
    let x = a1.bits;
    let y = a2.bits;
    let m = mask.bits;
    assert((((x >> 24u32) as u8) & ((m >> 24u32) as u8)) == (((y >> 24u32) as u8) & ((m >> 24u32) as u8))
        && (((x >> 16u32) as u8) & ((m >> 16u32) as u8)) == (((y >> 16u32) as u8) & ((m >> 16u32) as u8))
        && (((x >> 8u32) as u8) & ((m >> 8u32) as u8)) == (((y >> 8u32) as u8) & ((m >> 8u32) as u8))
        && (((x as u8) & (m as u8)) == ((y as u8) & (m as u8)))
        <==> (x & m) == (y & m)) by (bit_vector);
    if (x & m) == (y & m) {
        assert forall|i: int| 0 <= i < 4 implies #[trigger] (a1.spec_octets()[i] & mask.spec_octets()[i])
            == a2.spec_octets()[i] & mask.spec_octets()[i] by {
            if i == 1 {} else if i == 2 {} else if i == 3 {}
        }
    }
    if spec_in_same_subnet(a1, a2, mask) {
        assert((a1.spec_octets()[0] & mask.spec_octets()[0]) == a2.spec_octets()[0] & mask.spec_octets()[0]);
        assert((a1.spec_octets()[1] & mask.spec_octets()[1]) == a2.spec_octets()[1] & mask.spec_octets()[1]);
        assert((a1.spec_octets()[2] & mask.spec_octets()[2]) == a2.spec_octets()[2] & mask.spec_octets()[2]);
        assert((a1.spec_octets()[3] & mask.spec_octets()[3]) == a2.spec_octets()[3] & mask.spec_octets()[3]);
    }
}

/// Being in the same subnet is reflexive and symmetric.
pub proof fn lemma_in_same_subnet_reflexive_symmetric(a1: Ipv4Addr, a2: Ipv4Addr, mask: Ipv4Addr)
    ensures
        spec_in_same_subnet(a1, a1, mask),
        spec_in_same_subnet(a1, a2, mask) == spec_in_same_subnet(a2, a1, mask),
{
}

/// The first IPv4 interface address, in list order, that is in the same
/// subnet as `gateway` under that interface's own netmask.
pub open spec fn spec_local_addr_to_gateway(ifs: Seq<IfAddr>, gateway: Ipv4Addr) -> Option<Ipv4Addr>
    decreases ifs.len(),
{
    if ifs.len() == 0 {
        None
    } else {
        match ifs[0] {
            IfAddr::V4(a) => {
                if spec_in_same_subnet(a.ip, gateway, a.netmask) {
                    Some(a.ip)
                } else {
                    spec_local_addr_to_gateway(ifs.drop_first(), gateway)
                }
            },
            IfAddr::V6(_) => spec_local_addr_to_gateway(ifs.drop_first(), gateway),
        }
    }
}

/// Whether an interface address is an IPv4 address in the same subnet as
/// `gateway` under its own netmask.
pub open spec fn faces_gateway(ifa: IfAddr, gateway: Ipv4Addr) -> bool {
    match ifa {
        IfAddr::V4(a) => spec_in_same_subnet(a.ip, gateway, a.netmask),
        IfAddr::V6(_) => false,
    }
}

/// The IP of an interface address.
pub open spec fn interface_ip(ifa: IfAddr) -> Option<Ipv4Addr> {
    match ifa {
        IfAddr::V4(a) => Some(a.ip),
        IfAddr::V6(_) => None,
    }
}

/// The local address chosen for a gateway is the address of the first IPv4
/// interface in the same subnet as the gateway under that interface's
/// netmask; when none is chosen, no interface is in that subnet.
pub proof fn lemma_local_addr_to_gateway_is_on_subnet(ifs: Seq<IfAddr>, gateway: Ipv4Addr)
    ensures
        spec_local_addr_to_gateway(ifs, gateway) matches Some(ip) ==> exists|i: int|
            0 <= i < ifs.len() && #[trigger] faces_gateway(ifs[i], gateway) && interface_ip(ifs[i]) == Some(ip)
                && forall|j: int| 0 <= j < i ==> !faces_gateway(#[trigger] ifs[j], gateway),
        spec_local_addr_to_gateway(ifs, gateway) is None ==> forall|i: int|
            0 <= i < ifs.len() ==> !faces_gateway(#[trigger] ifs[i], gateway),
    decreases ifs.len(),
{
    if ifs.len() > 0 {
        let rest = ifs.drop_first();
        lemma_local_addr_to_gateway_is_on_subnet(rest, gateway);
        if faces_gateway(ifs[0], gateway) {
            assert(faces_gateway(ifs[0], gateway) && interface_ip(ifs[0]) == interface_ip(ifs[0]));
        } else {
            match spec_local_addr_to_gateway(ifs, gateway) {
                Some(ip) => {
                    let k = choose|k: int|
                        0 <= k < rest.len() && #[trigger] faces_gateway(rest[k], gateway) && interface_ip(rest[k])
                            == Some(ip) && forall|j: int| 0 <= j < k ==> !faces_gateway(#[trigger] rest[j], gateway);
                    assert(ifs[k + 1] == rest[k]);
                    assert forall|j: int| 0 <= j < k + 1 implies !faces_gateway(#[trigger] ifs[j], gateway) by {
                        if j > 0 {
                            assert(ifs[j] == rest[j - 1]);
                        }
                    }
                },
                None => {
                    assert forall|i: int| 0 <= i < ifs.len() implies !faces_gateway(#[trigger] ifs[i], gateway) by {
                        if i > 0 {
                            assert(ifs[i] == rest[i - 1]);
                        }
                    }
                },
            }
        }
    }
}

/// Among the given interface addresses, the local IPv4 address on the same
/// subnet as the gateway address.
pub fn local_addr_to_gateway_among(ifs: &Vec<IfAddr>, gateway_addr: Ipv4Addr) -> (r: Option<Ipv4Addr>)
    ensures
        r == spec_local_addr_to_gateway(ifs@, gateway_addr),
{
    let mut i: usize = 0;
    assert(ifs@.skip(0) =~= ifs@);
    while i < ifs.len()
        invariant
            i <= ifs.len(),
            spec_local_addr_to_gateway(ifs@, gateway_addr) == spec_local_addr_to_gateway(
                ifs@.skip(i as int),
                gateway_addr,
            ),
        decreases ifs.len() - i,
    {
        assert(ifs@.skip(i as int)[0] == ifs@[i as int]);
        assert(ifs@.skip(i as int).drop_first() =~= ifs@.skip(i + 1));
        if let IfAddr::V4(a) = ifs[i] {
            if in_same_subnet(a.ip, gateway_addr, a.netmask) {
                return Some(a.ip);
            }
        }
        i = i + 1;
    }
    assert(ifs@.skip(i as int) =~= Seq::<IfAddr>::empty());
    None
}

/// The local IP address that is on the same subnet as the gateway address.
/// It is always IPv4 because the gateway always has an IPv4 address as well.
/// Fails with a `NotFound` error when no interface is on that subnet, and with
/// the error of reading the interface list when that fails.
pub fn local_addr_to_gateway(gateway_addr: Ipv4Addr) -> (r: Result<Ipv4Addr, std::io::Error>)
    ensures
        r matches Ok(ip) ==> exists|ifs: Seq<IfAddr>|
            spec_local_addr_to_gateway(ifs, gateway_addr) == Some(ip),
{
    local_addr_to_gateway_in(interface_addrs(), gateway_addr)
}

/// The local IPv4 address on the same subnet as the gateway address, given
/// the outcome of reading the interface list: the read's error unchanged
/// when it failed; otherwise the address, or a `NotFound` error when no
/// interface is on that subnet.
pub fn local_addr_to_gateway_in(ifs: Result<Vec<IfAddr>, std::io::Error>, gateway_addr: Ipv4Addr) -> (r: Result<
    Ipv4Addr,
    std::io::Error,
>)
    ensures
        match ifs {
            Ok(l) => {
                &&& r is Ok <==> spec_local_addr_to_gateway(l@, gateway_addr) is Some
                &&& r matches Ok(ip) ==> spec_local_addr_to_gateway(l@, gateway_addr) == Some(ip)
            },
            Err(e) => r == Err::<Ipv4Addr, std::io::Error>(e),
        },
{
    let ifs = ifs?;
    match local_addr_to_gateway_among(&ifs, gateway_addr) {
        Some(ip) => Ok(ip),
        None => Err(io_error_not_found("No local addresses to gateway")),
    }
}

/// `igd::SearchError`, carried through unchanged.
#[verifier::external_type_specification]
#[verifier::external_body]
pub struct ExSearchError(igd::SearchError);

/// `igd::AddAnyPortError`, carried through unchanged.
#[verifier::external_type_specification]
#[verifier::external_body]
pub struct ExAddAnyPortError(igd::AddAnyPortError);

/// Why no port could be mapped on the local gateway.
#[derive(Debug)]
pub enum GetAnyAddressError {
    Ipv6NotSupported,
    FindGateway(igd::SearchError),
    RequestPort(igd::AddAnyPortError),
}

impl GetAnyAddressError {
    /// A short description of the failure.
    pub fn description(&self) -> (r: &'static str)
        ensures
            r@ == match *self {
                GetAnyAddressError::Ipv6NotSupported => "IPv6 not supported for UPnP"@,
                GetAnyAddressError::FindGateway(_) => "failed to find IGD gateway"@,
                GetAnyAddressError::RequestPort(_) => "error opening port on UPnP router"@,
            },
    {
        match self {
            GetAnyAddressError::Ipv6NotSupported => "IPv6 not supported for UPnP",
            GetAnyAddressError::FindGateway(_) => "failed to find IGD gateway",
            GetAnyAddressError::RequestPort(_) => "error opening port on UPnP router",
        }
    }
}

/// What is asked of the gateway to map a public port to a local address:
/// the gateway is searched for from `search_ip`, waiting at most
/// `search_timeout_ms` milliseconds, and then asked for the mapping.
pub struct PortMappingRequest {
    pub search_ip: Ipv4Addr,
    pub search_timeout_ms: u64,
    pub protocol: Protocol,
    pub local_addr: SocketAddrV4,
    pub lease_duration: u32,
    pub description: &'static str,
}

/// The port-mapping request that opens `local_addr` for `protocol` on the
/// gateway: IPv4 addresses only, searching for the gateway from the local
/// IP for 200 ms, with no lease limit and this library's name as the
/// mapping's description.
pub fn get_any_address_request(protocol: Protocol, local_addr: SocketAddr) -> (r: Result<
    PortMappingRequest,
    GetAnyAddressError,
>)
    ensures
        match local_addr {
            SocketAddr::V4(a) => r matches Ok(req) && req.search_ip == a.ip && req.search_timeout_ms == 200
                && req.protocol == protocol && req.local_addr == a
                && req.lease_duration == 0 && req.description@ == "tokio-nat-traversal"@,
            SocketAddr::V6(_) => r matches Err(GetAnyAddressError::Ipv6NotSupported),
        },
{
    match local_addr {
        SocketAddr::V4(a) => {
            let description = "tokio-nat-traversal";
            Ok(
                PortMappingRequest {
                    search_ip: a.ip,
                    search_timeout_ms: 200,
                    protocol,
                    local_addr: a,
                    lease_duration: 0,
                    description,
                },
            )
        },
        SocketAddr::V6(_) => Err(GetAnyAddressError::Ipv6NotSupported),
    }
}

} // verus!
