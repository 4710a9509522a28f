use vstd::prelude::*;
use crate::addr::{Ipv4Addr, Ipv6Addr, SocketAddr, SocketAddrV4, SocketAddrV6};
use crate::ip_addr::{has_v4_interface, has_v6_interface, lemma_v4_interface_ips_members, lemma_v6_interface_ips_members, spec_expand_ip, expand_ipv4_from, expand_ipv6_from, spec_expand_ipv4, spec_expand_ipv6, Ipv4AddrExt, Ipv6AddrExt};
use crate::os::{interface_addrs, IfAddr};

verus! {

/// What an IPv4 socket address stands for on a machine with the given
/// interface addresses: its port on every address that its IP stands for.
pub open spec fn spec_expand_socket_v4(addr: SocketAddrV4, ifs: Seq<IfAddr>) -> Seq<SocketAddrV4> {
    spec_expand_ipv4(addr.ip, ifs).map_values(|ip: Ipv4Addr| SocketAddrV4 { ip, port: addr.port })
}

/// What an IPv6 socket address stands for on a machine with the given
/// interface addresses: its port, flow information and scope id on every
/// address that its IP stands for.
pub open spec fn spec_expand_socket_v6(addr: SocketAddrV6, ifs: Seq<IfAddr>) -> Seq<SocketAddrV6> {
    spec_expand_ipv6(addr.ip, ifs).map_values(
        |ip: Ipv6Addr|
            SocketAddrV6 { ip, port: addr.port, flowinfo: addr.flowinfo, scope_id: addr.scope_id },
    )
}

/// What a socket address stands for on a machine with the given interface addresses.
pub open spec fn spec_expand_socket(addr: SocketAddr, ifs: Seq<IfAddr>) -> Seq<SocketAddr> {
    match addr {
        SocketAddr::V4(a) => spec_expand_socket_v4(a, ifs).map_values(|x: SocketAddrV4| SocketAddr::V4(x)),
        SocketAddr::V6(a) => spec_expand_socket_v6(a, ifs).map_values(|x: SocketAddrV6| SocketAddr::V6(x)),
    }
}

/// Whether the IP of a socket address is the unspecified address of its family.
pub open spec fn socket_ip_unspecified(addr: SocketAddr) -> bool {
    match addr {
        SocketAddr::V4(a) => a.ip.bits == 0,
        SocketAddr::V6(a) => a.ip.bits == 0,
    }
}

/// Expansion of a socket address bound to the unspecified IP into one socket
/// address per local interface address.
pub trait SocketAddrExt: Sized {
    fn expand_local_unspecified(&self) -> Result<Vec<Self>, std::io::Error>;
}

/// Expansion of an IPv4 socket address bound to `0.0.0.0`.
pub trait SocketAddrV4Ext: Sized {
    fn expand_local_unspecified(&self) -> Result<Vec<Self>, std::io::Error>;
}

/// Expansion of an IPv6 socket address bound to `::`.
pub trait SocketAddrV6Ext: Sized {
    fn expand_local_unspecified(&self) -> Result<Vec<Self>, std::io::Error>;
}

/// The IPv4 socket addresses with the given IPs and `addr`'s port, given
/// the outcome of expanding `addr`'s IP: the error of a failed expansion
/// comes back unchanged.
pub fn expand_socket_v4_with(addr: SocketAddrV4, ips: Result<Vec<Ipv4Addr>, std::io::Error>) -> (r: Result<
    Vec<SocketAddrV4>,
    std::io::Error,
>)
    ensures
        match ips {
            Ok(l) => r matches Ok(v) && v@ == l@.map_values(|ip: Ipv4Addr| SocketAddrV4 { ip, port: addr.port }),
            Err(e) => r == Err::<Vec<SocketAddrV4>, std::io::Error>(e),
        },
{
    let ips = ips?;
    let mut r: Vec<SocketAddrV4> = Vec::new();
    let mut i: usize = 0;
    while i < ips.len()
        invariant
            i <= ips.len(),
            r@ == ips@.take(i as int).map_values(|ip: Ipv4Addr| SocketAddrV4 { ip, port: addr.port }),
        decreases ips.len() - i,
    {
        r.push(SocketAddrV4 { ip: ips[i], port: addr.port });
        i = i + 1;
        assert(r@ =~= ips@.take(i as int).map_values(|ip: Ipv4Addr| SocketAddrV4 { ip, port: addr.port }));
    }
    assert(ips@.take(ips.len() as int) =~= ips@);
    Ok(r)
}

/// The IPv6 socket addresses with the given IPs and `addr`'s port, flow
/// information and scope id, given the outcome of expanding `addr`'s IP:
/// the error of a failed expansion comes back unchanged.
pub fn expand_socket_v6_with(addr: SocketAddrV6, ips: Result<Vec<Ipv6Addr>, std::io::Error>) -> (r: Result<
    Vec<SocketAddrV6>,
    std::io::Error,
>)
    ensures
        match ips {
            Ok(l) => r matches Ok(v) && v@ == l@.map_values(
                |ip: Ipv6Addr|
                    SocketAddrV6 { ip, port: addr.port, flowinfo: addr.flowinfo, scope_id: addr.scope_id },
            ),
            Err(e) => r == Err::<Vec<SocketAddrV6>, std::io::Error>(e),
        },
{
    let ips = ips?;
    let mut r: Vec<SocketAddrV6> = Vec::new();
    let mut i: usize = 0;
    while i < ips.len()
        invariant
            i <= ips.len(),
            r@ == ips@.take(i as int).map_values(
                |ip: Ipv6Addr|
                    SocketAddrV6 { ip, port: addr.port, flowinfo: addr.flowinfo, scope_id: addr.scope_id },
            ),
        decreases ips.len() - i,
    {
        r.push(SocketAddrV6 { ip: ips[i], port: addr.port, flowinfo: addr.flowinfo, scope_id: addr.scope_id });
        i = i + 1;
        assert(r@ =~= ips@.take(i as int).map_values(
            |ip: Ipv6Addr|
                SocketAddrV6 { ip, port: addr.port, flowinfo: addr.flowinfo, scope_id: addr.scope_id },
        ));
    }
    assert(ips@.take(ips.len() as int) =~= ips@);
    Ok(r)
}

/// The IPv4 socket addresses as socket addresses, in order.
pub fn socket_v4s_as_socket_addrs(v: Vec<SocketAddrV4>) -> (r: Vec<SocketAddr>)
    ensures
        r@ == v@.map_values(|x: SocketAddrV4| SocketAddr::V4(x)),
{
    let mut r: Vec<SocketAddr> = Vec::new();
    let mut i: usize = 0;
    while i < v.len()
        invariant
            i <= v.len(),
            r@ == v@.take(i as int).map_values(|x: SocketAddrV4| SocketAddr::V4(x)),
        decreases v.len() - i,
    {
        r.push(SocketAddr::V4(v[i]));
        i = i + 1;
        assert(r@ =~= v@.take(i as int).map_values(|x: SocketAddrV4| SocketAddr::V4(x)));
    }
    assert(v@.take(v.len() as int) =~= v@);
    r
}

/// The IPv6 socket addresses as socket addresses, in order.
pub fn socket_v6s_as_socket_addrs(v: Vec<SocketAddrV6>) -> (r: Vec<SocketAddr>)
    ensures
        r@ == v@.map_values(|x: SocketAddrV6| SocketAddr::V6(x)),
{
    let mut r: Vec<SocketAddr> = Vec::new();
    let mut i: usize = 0;
    while i < v.len()
        invariant
            i <= v.len(),
            r@ == v@.take(i as int).map_values(|x: SocketAddrV6| SocketAddr::V6(x)),
        decreases v.len() - i,
    {
        r.push(SocketAddr::V6(v[i]));
        i = i + 1;
        assert(r@ =~= v@.take(i as int).map_values(|x: SocketAddrV6| SocketAddr::V6(x)));
    }
    assert(v@.take(v.len() as int) =~= v@);
    r
}

/// What a socket address expands to, given the outcome of reading the
/// interface list: itself when its IP is specified (the outcome is not
/// looked at); otherwise its port (and, for IPv6, flow information and scope
/// id) on every interface address of its family, in interface order, when
/// the read succeeded, and the read's error unchanged when it failed.
pub fn expand_socket_from(addr: SocketAddr, ifs: Result<Vec<IfAddr>, std::io::Error>) -> (r: Result<
    Vec<SocketAddr>,
    std::io::Error,
>)
    ensures
        !socket_ip_unspecified(addr) ==> (r matches Ok(v) && v@ == seq![addr]),
        socket_ip_unspecified(addr) ==> match ifs {
            Ok(l) => r matches Ok(v) && v@ == spec_expand_socket(addr, l@),
            Err(e) => r == Err::<Vec<SocketAddr>, std::io::Error>(e),
        },
{
    match addr {
        SocketAddr::V4(a) => {
            let ghost read = ifs;
            let ips = expand_ipv4_from(a.ip, ifs);
            match expand_socket_v4_with(a, ips) {
                Ok(v) => {
                    let r = socket_v4s_as_socket_addrs(v);
                    proof {
                        if a.ip.bits != 0 {
                            assert(r@ =~= seq![addr]);
                        } else if let Ok(l) = read {
                            assert(r@ == spec_expand_socket(addr, l@));
                        }
                    }
                    Ok(r)
                },
                Err(e) => Err(e),
            }
        },
        SocketAddr::V6(a) => {
            let ghost read = ifs;
            let ips = expand_ipv6_from(a.ip, ifs);
            match expand_socket_v6_with(a, ips) {
                Ok(v) => {
                    let r = socket_v6s_as_socket_addrs(v);
                    proof {
                        if a.ip.bits != 0 {
                            assert(r@ =~= seq![addr]);
                        } else if let Ok(l) = read {
                            assert(r@ == spec_expand_socket(addr, l@));
                        }
                    }
                    Ok(r)
                },
                Err(e) => Err(e),
            }
        },
    }
}

impl SocketAddrV4Ext for SocketAddrV4 {
    /// Each address that the IP expands to, with this address's port; the
    /// error of the IP's expansion comes back unchanged.
    fn expand_local_unspecified(&self) -> (r: Result<Vec<SocketAddrV4>, std::io::Error>)
        ensures
            self.ip.bits != 0 ==> (r matches Ok(v) && v@ == seq![*self]),
            r matches Ok(v) ==> exists|ifs: Seq<IfAddr>| v@ == spec_expand_socket_v4(*self, ifs),
    {
        let ips = self.ip.expand_local_unspecified();
        let ghost ips_res = ips;
        let r = expand_socket_v4_with(*self, ips);
        let ghost res = r;
        proof {
            if let Ok(v) = res {
                let l = ips_res->Ok_0;
                let ifs = choose|ifs: Seq<IfAddr>| l@ == spec_expand_ipv4(self.ip, ifs);
                assert(v@ == spec_expand_socket_v4(*self, ifs));
                if self.ip.bits != 0 {
                    assert(v@ =~= seq![*self]);
                }
            }
        }
        r
    }
}

impl SocketAddrV6Ext for SocketAddrV6 {
    /// Each address that the IP expands to, with this address's port, flow
    /// information and scope id; the error of the IP's expansion comes back unchanged.
    fn expand_local_unspecified(&self) -> (r: Result<Vec<SocketAddrV6>, std::io::Error>)
        ensures
            self.ip.bits != 0 ==> (r matches Ok(v) && v@ == seq![*self]),
            r matches Ok(v) ==> exists|ifs: Seq<IfAddr>| v@ == spec_expand_socket_v6(*self, ifs),
    {
        let ips = self.ip.expand_local_unspecified();
        let ghost ips_res = ips;
        let r = expand_socket_v6_with(*self, ips);
        let ghost res = r;
        proof {
            if let Ok(v) = res {
                let l = ips_res->Ok_0;
                let ifs = choose|ifs: Seq<IfAddr>| l@ == spec_expand_ipv6(self.ip, ifs);
                assert(v@ == spec_expand_socket_v6(*self, ifs));
                if self.ip.bits != 0 {
                    assert(v@ =~= seq![*self]);
                }
            }
        }
        r
    }
}

impl SocketAddrExt for SocketAddr {
    /// Expands the address as `expand_socket_from` does, reading the
    /// interface list only when the address's IP is unspecified.
    fn expand_local_unspecified(&self) -> (r: Result<Vec<SocketAddr>, std::io::Error>)
        ensures
            !socket_ip_unspecified(*self) ==> (r matches Ok(v) && v@ == seq![*self]),
            r matches Ok(v) ==> exists|ifs: Seq<IfAddr>| v@ == spec_expand_socket(*self, ifs),
    {
        let unspecified = match self {
            SocketAddr::V4(a) => a.ip.is_unspecified(),
            SocketAddr::V6(a) => a.ip.is_unspecified(),
        };
        let ifs = if unspecified {
            interface_addrs()
        } else {
            Ok(Vec::new())
        };
        let ghost read = ifs;
        let r = expand_socket_from(*self, ifs);
        let ghost res = r;
        proof {
            if let Ok(v) = res {
                if !socket_ip_unspecified(*self) {
                    assert(v@ == spec_expand_socket(*self, seq![])) by {
                        match *self {
                            SocketAddr::V4(a) => {
                                assert(spec_expand_socket_v4(a, seq![]) =~= seq![a]);
                                assert(seq![a].map_values(|x: SocketAddrV4| SocketAddr::V4(x)) =~= seq![*self]);
                            },
                            SocketAddr::V6(a) => {
                                assert(spec_expand_socket_v6(a, seq![]) =~= seq![a]);
                                assert(seq![a].map_values(|x: SocketAddrV6| SocketAddr::V6(x)) =~= seq![*self]);
                            },
                        }
                    }
                } else if let Ok(l) = read {
                    assert(v@ == spec_expand_socket(*self, l@));
                }
            }
        }
        r
    }
}

/// Expanding a socket address keeps its family and its port, and an IPv6
/// address's flow information and scope id.
pub proof fn lemma_expand_socket_keeps_port_and_family(addr: SocketAddr, ifs: Seq<IfAddr>)
    ensures
        forall|i: int|
            0 <= i < spec_expand_socket(addr, ifs).len() ==> {
                let x = #[trigger] spec_expand_socket(addr, ifs)[i];
                &&& x.spec_port() == addr.spec_port()
                &&& (x is V4) == (addr is V4)
                &&& (x matches SocketAddr::V6(x6) ==> addr matches SocketAddr::V6(a6)
                    && x6.flowinfo == a6.flowinfo && x6.scope_id == a6.scope_id)
            },
{
}

/// `x` is `addr` with its IP replaced: same family, same port and, for
/// IPv6, same flow information and scope id.
pub open spec fn same_but_ip(x: SocketAddr, addr: SocketAddr) -> bool {
    match (x, addr) {
        (SocketAddr::V4(x4), SocketAddr::V4(a4)) => x4.port == a4.port,
        (SocketAddr::V6(x6), SocketAddr::V6(a6)) => x6.port == a6.port && x6.flowinfo == a6.flowinfo
            && x6.scope_id == a6.scope_id,
        _ => false,
    }
}

/// Whether some interface in `ifs` has the IP of `x`.
pub open spec fn has_interface_of(ifs: Seq<IfAddr>, x: SocketAddr) -> bool {
    match x {
        SocketAddr::V4(x4) => has_v4_interface(ifs, x4.ip),
        SocketAddr::V6(x6) => has_v6_interface(ifs, x6.ip),
    }
}

/// Expanding a socket address against an interface list: a specified
/// address stands for itself whatever the list; the IPs of the expansion
/// are, in order, the expansion of its IP; and for the unspecified IP the
/// expansion holds exactly the address with its IP replaced by each
/// interface address of its family, so it is empty only when no such
/// interface is listed and never holds the unspecified IP unless an
/// interface has it.
pub proof fn lemma_expand_socket_members(addr: SocketAddr, ifs: Seq<IfAddr>)
    ensures
        !socket_ip_unspecified(addr) ==> spec_expand_socket(addr, ifs) == seq![addr],
        spec_expand_socket(addr, ifs).map_values(|x: SocketAddr| x.spec_ip()) == spec_expand_ip(addr.spec_ip(), ifs),
        socket_ip_unspecified(addr) ==> forall|x: SocketAddr|
            #![trigger spec_expand_socket(addr, ifs).contains(x)]
            spec_expand_socket(addr, ifs).contains(x) <==> same_but_ip(x, addr) && has_interface_of(ifs, x),
{
    match addr {
        SocketAddr::V4(a) => {
            let l = spec_expand_ipv4(a.ip, ifs);
            let s4 = spec_expand_socket_v4(a, ifs);
            let m = s4.map_values(|x: SocketAddrV4| SocketAddr::V4(x));
            assert(m.map_values(|x: SocketAddr| x.spec_ip()) =~= spec_expand_ip(addr.spec_ip(), ifs));
            if a.ip.bits != 0 {
                assert(m =~= seq![addr]);
            } else {
                assert forall|x: SocketAddr| #![trigger spec_expand_socket(addr, ifs).contains(x)]
                    spec_expand_socket(addr, ifs).contains(x) <==> same_but_ip(x, addr) && has_interface_of(ifs, x) by {
                    if m.contains(x) {
                        let k = choose|k: int| 0 <= k < m.len() && m[k] == x;
                        assert(m[k] == SocketAddr::V4(SocketAddrV4 { ip: l[k], port: a.port }));
                        assert(l.contains(l[k]));
                        lemma_v4_interface_ips_members(ifs, l[k]);
                    }
                    if same_but_ip(x, addr) && has_interface_of(ifs, x) {
                        if let SocketAddr::V4(x4) = x {
                            lemma_v4_interface_ips_members(ifs, x4.ip);
                            let k = choose|k: int| 0 <= k < l.len() && l[k] == x4.ip;
                            assert(m[k] == x);
                        }
                    }
                }
            }
        },
        SocketAddr::V6(a) => {
            let l = spec_expand_ipv6(a.ip, ifs);
            let s6 = spec_expand_socket_v6(a, ifs);
            let m = s6.map_values(|x: SocketAddrV6| SocketAddr::V6(x));
            assert(m.map_values(|x: SocketAddr| x.spec_ip()) =~= spec_expand_ip(addr.spec_ip(), ifs));
            if a.ip.bits != 0 {
                assert(m =~= seq![addr]);
            } else {
                assert forall|x: SocketAddr| #![trigger spec_expand_socket(addr, ifs).contains(x)]
                    spec_expand_socket(addr, ifs).contains(x) <==> same_but_ip(x, addr) && has_interface_of(ifs, x) by {
                    if m.contains(x) {
                        let k = choose|k: int| 0 <= k < m.len() && m[k] == x;
                        assert(m[k] == SocketAddr::V6(
                            SocketAddrV6 { ip: l[k], port: a.port, flowinfo: a.flowinfo, scope_id: a.scope_id },
                        ));
                        assert(l.contains(l[k]));
                        lemma_v6_interface_ips_members(ifs, l[k]);
                    }
                    if same_but_ip(x, addr) && has_interface_of(ifs, x) {
                        if let SocketAddr::V6(x6) = x {
                            lemma_v6_interface_ips_members(ifs, x6.ip);
                            let k = choose|k: int| 0 <= k < l.len() && l[k] == x6.ip;
                            assert(m[k] == x);
                        }
                    }
                }
            }
        },
    }
}

} // verus!
