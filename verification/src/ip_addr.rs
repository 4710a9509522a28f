use vstd::prelude::*;
use crate::addr::{IpAddr, Ipv4Addr, Ipv6Addr};
use crate::os::{interface_addrs, IfAddr};

verus! {

/// The IPv4 addresses among the given interface addresses, in order.
pub open spec fn v4_interface_ips(ifs: Seq<IfAddr>) -> Seq<Ipv4Addr>
    decreases ifs.len(),
{
    if ifs.len() == 0 {
        seq![]
    } else {
        let rest = v4_interface_ips(ifs.drop_last());
        match ifs.last() {
            IfAddr::V4(a) => rest.push(a.ip),
            IfAddr::V6(_) => rest,
        }
    }
}

/// The IPv6 addresses among the given interface addresses, in order.
pub open spec fn v6_interface_ips(ifs: Seq<IfAddr>) -> Seq<Ipv6Addr>
    decreases ifs.len(),
{
    if ifs.len() == 0 {
        seq![]
    } else {
        let rest = v6_interface_ips(ifs.drop_last());
        match ifs.last() {
            IfAddr::V6(a) => rest.push(a.ip),
            IfAddr::V4(_) => rest,
        }
    }
}

/// What an IPv4 address stands for on a machine with the given interface
/// addresses: the unspecified address stands for every IPv4 interface
/// address, any other address for itself.
pub open spec fn spec_expand_ipv4(addr: Ipv4Addr, ifs: Seq<IfAddr>) -> Seq<Ipv4Addr> {
    if addr.bits == 0 {
        v4_interface_ips(ifs)
    } else {
        seq![addr]
    }
}

/// What an IPv6 address stands for on a machine with the given interface
/// addresses: the unspecified address stands for every IPv6 interface
/// address, any other address for itself.
pub open spec fn spec_expand_ipv6(addr: Ipv6Addr, ifs: Seq<IfAddr>) -> Seq<Ipv6Addr> {
    if addr.bits == 0 {
        v6_interface_ips(ifs)
    } else {
        seq![addr]
    }
}

/// What an IP address stands for on a machine with the given interface addresses.
pub open spec fn spec_expand_ip(addr: IpAddr, ifs: Seq<IfAddr>) -> Seq<IpAddr> {
    match addr {
        IpAddr::V4(a) => spec_expand_ipv4(a, ifs).map_values(|x: Ipv4Addr| IpAddr::V4(x)),
        IpAddr::V6(a) => spec_expand_ipv6(a, ifs).map_values(|x: Ipv6Addr| IpAddr::V6(x)),
    }
}

/// The IPv4 addresses among `ifs`, in order.
pub fn v4_interface_ips_of(ifs: &Vec<IfAddr>) -> (r: Vec<Ipv4Addr>)
    ensures
        r@ == v4_interface_ips(ifs@),
{
    let mut r: Vec<Ipv4Addr> = Vec::new();
    let mut i: usize = 0;
    while i < ifs.len()
        invariant
            i <= ifs.len(),
            r@ == v4_interface_ips(ifs@.take(i as int)),
        decreases ifs.len() - i,
    {
        assert(ifs@.take(i + 1).drop_last() =~= ifs@.take(i as int));
        match ifs[i] {
            IfAddr::V4(a) => r.push(a.ip),
            IfAddr::V6(_) => {},
        }
        i = i + 1;
    }
    assert(ifs@.take(ifs.len() as int) =~= ifs@);
    r
}

/// The IPv6 addresses among `ifs`, in order.
pub fn v6_interface_ips_of(ifs: &Vec<IfAddr>) -> (r: Vec<Ipv6Addr>)
    ensures
        r@ == v6_interface_ips(ifs@),
{
    let mut r: Vec<Ipv6Addr> = Vec::new();
    let mut i: usize = 0;
    while i < ifs.len()
        invariant
            i <= ifs.len(),
            r@ == v6_interface_ips(ifs@.take(i as int)),
        decreases ifs.len() - i,
    {
        assert(ifs@.take(i + 1).drop_last() =~= ifs@.take(i as int));
        match ifs[i] {
            IfAddr::V6(a) => r.push(a.ip),
            IfAddr::V4(_) => {},
        }
        i = i + 1;
    }
    assert(ifs@.take(ifs.len() as int) =~= ifs@);
    r
}

/// Expansion of unspecified addresses into the addresses of local interfaces.
pub trait IpAddrExt: Sized {
    fn expand_local_unspecified(&self) -> Result<Vec<Self>, std::io::Error>;
}

/// Expansion of the unspecified IPv4 address into the IPv4 addresses of local interfaces.
pub trait Ipv4AddrExt: Sized {
    fn expand_local_unspecified(&self) -> Result<Vec<Self>, std::io::Error>;
}

/// Expansion of the unspecified IPv6 address into the IPv6 addresses of local interfaces.
pub trait Ipv6AddrExt: Sized {
    fn expand_local_unspecified(&self) -> Result<Vec<Self>, std::io::Error>;
}

/// Whether an IP address is the unspecified address of its family.
pub open spec fn ip_unspecified(addr: IpAddr) -> bool {
    match addr {
        IpAddr::V4(a) => a.bits == 0,
        IpAddr::V6(a) => a.bits == 0,
    }
}

/// What an IPv4 address expands to, given the outcome of reading the
/// interface list: itself when it is specified (the outcome is not looked
/// at); for the unspecified address, the IPv4 interface addresses when the
/// read succeeded, and the read's error unchanged when it failed.
pub fn expand_ipv4_from(addr: Ipv4Addr, ifs: Result<Vec<IfAddr>, std::io::Error>) -> (r: Result<
    Vec<Ipv4Addr>,
    std::io::Error,
>)
    ensures
        addr.bits != 0 ==> (r matches Ok(v) && v@ == seq![addr]),
        addr.bits == 0 ==> match ifs {
            Ok(l) => r matches Ok(v) && v@ == spec_expand_ipv4(addr, l@),
            Err(e) => r == Err::<Vec<Ipv4Addr>, std::io::Error>(e),
        },
{
    if addr.is_unspecified() {
        match ifs {
            Ok(l) => Ok(v4_interface_ips_of(&l)),
            Err(e) => Err(e),
        }
    } else {
        let v = vec![addr];
        assert(v@ =~= seq![addr]);
        Ok(v)
    }
}

/// What an IPv6 address expands to, given the outcome of reading the
/// interface list, as `expand_ipv4_from` does for IPv4.
pub fn expand_ipv6_from(addr: Ipv6Addr, ifs: Result<Vec<IfAddr>, std::io::Error>) -> (r: Result<
    Vec<Ipv6Addr>,
    std::io::Error,
>)
    ensures
        addr.bits != 0 ==> (r matches Ok(v) && v@ == seq![addr]),
        addr.bits == 0 ==> match ifs {
            Ok(l) => r matches Ok(v) && v@ == spec_expand_ipv6(addr, l@),
            Err(e) => r == Err::<Vec<Ipv6Addr>, std::io::Error>(e),
        },
{
    if addr.is_unspecified() {
        match ifs {
            Ok(l) => Ok(v6_interface_ips_of(&l)),
            Err(e) => Err(e),
        }
    } else {
        let v = vec![addr];
        assert(v@ =~= seq![addr]);
        Ok(v)
    }
}

/// The IPv4 addresses as IP addresses, in order.
pub fn ipv4s_as_ips(v: Vec<Ipv4Addr>) -> (r: Vec<IpAddr>)
    ensures
        r@ == v@.map_values(|x: Ipv4Addr| IpAddr::V4(x)),
{
    let mut r: Vec<IpAddr> = Vec::new();
    let mut i: usize = 0;
    while i < v.len()
        invariant
            i <= v.len(),
            r@ == v@.take(i as int).map_values(|x: Ipv4Addr| IpAddr::V4(x)),
        decreases v.len() - i,
    {
        r.push(IpAddr::V4(v[i]));
        i = i + 1;
        assert(r@ =~= v@.take(i as int).map_values(|x: Ipv4Addr| IpAddr::V4(x)));
    }
    assert(v@.take(v.len() as int) =~= v@);
    r
}

/// The IPv6 addresses as IP addresses, in order.
pub fn ipv6s_as_ips(v: Vec<Ipv6Addr>) -> (r: Vec<IpAddr>)
    ensures
        r@ == v@.map_values(|x: Ipv6Addr| IpAddr::V6(x)),
{
    let mut r: Vec<IpAddr> = Vec::new();
    let mut i: usize = 0;
    while i < v.len()
        invariant
            i <= v.len(),
            r@ == v@.take(i as int).map_values(|x: Ipv6Addr| IpAddr::V6(x)),
        decreases v.len() - i,
    {
        r.push(IpAddr::V6(v[i]));
        i = i + 1;
        assert(r@ =~= v@.take(i as int).map_values(|x: Ipv6Addr| IpAddr::V6(x)));
    }
    assert(v@.take(v.len() as int) =~= v@);
    r
}

/// What an IP address expands to, given the outcome of reading the
/// interface list, as `expand_ipv4_from` and `expand_ipv6_from` do for its family.
pub fn expand_ip_from(addr: IpAddr, ifs: Result<Vec<IfAddr>, std::io::Error>) -> (r: Result<
    Vec<IpAddr>,
    std::io::Error,
>)
    ensures
        !ip_unspecified(addr) ==> (r matches Ok(v) && v@ == seq![addr]),
        ip_unspecified(addr) ==> match ifs {
            Ok(l) => r matches Ok(v) && v@ == spec_expand_ip(addr, l@),
            Err(e) => r == Err::<Vec<IpAddr>, std::io::Error>(e),
        },
{
    match addr {
        IpAddr::V4(a) => match expand_ipv4_from(a, ifs) {
            Ok(v) => {
                let r = ipv4s_as_ips(v);
                proof {
                    if a.bits != 0 {
                        assert(r@ =~= seq![addr]);
                    }
                }
                Ok(r)
            },
            Err(e) => Err(e),
        },
        IpAddr::V6(a) => match expand_ipv6_from(a, ifs) {
            Ok(v) => {
                let r = ipv6s_as_ips(v);
                proof {
                    if a.bits != 0 {
                        assert(r@ =~= seq![addr]);
                    }
                }
                Ok(r)
            },
            Err(e) => Err(e),
        },
    }
}

impl Ipv4AddrExt for Ipv4Addr {
    /// The unspecified address becomes the IPv4 addresses of this machine's
    /// interfaces (the interface list is read only in that case), or the
    /// read's error; any other address becomes the one-element list of itself.
    fn expand_local_unspecified(&self) -> (r: Result<Vec<Ipv4Addr>, std::io::Error>)
        ensures
            self.bits != 0 ==> (r matches Ok(v) && v@ == seq![*self]),
            r matches Ok(v) ==> exists|ifs: Seq<IfAddr>| v@ == spec_expand_ipv4(*self, ifs),
    {
        let ifs = if self.is_unspecified() {
            interface_addrs()
        } else {
            Ok(Vec::new())
        };
        let ghost read = ifs;
        let r = expand_ipv4_from(*self, ifs);
        let ghost res = r;
        proof {
            if let Ok(v) = res {
                if self.bits != 0 {
                    assert(v@ == spec_expand_ipv4(*self, seq![]));
                } else if let Ok(l) = read {
                    assert(v@ == spec_expand_ipv4(*self, l@));
                }
            }
        }
        r
    }
}

impl Ipv6AddrExt for Ipv6Addr {
    /// The unspecified address becomes the IPv6 addresses of this machine's
    /// interfaces (the interface list is read only in that case), or the
    /// read's error; any other address becomes the one-element list of itself.
    fn expand_local_unspecified(&self) -> (r: Result<Vec<Ipv6Addr>, std::io::Error>)
        ensures
            self.bits != 0 ==> (r matches Ok(v) && v@ == seq![*self]),
            r matches Ok(v) ==> exists|ifs: Seq<IfAddr>| v@ == spec_expand_ipv6(*self, ifs),
    {
        let ifs = if self.is_unspecified() {
            interface_addrs()
        } else {
            Ok(Vec::new())
        };
        let ghost read = ifs;
        let r = expand_ipv6_from(*self, ifs);
        let ghost res = r;
        proof {
            if let Ok(v) = res {
                if self.bits != 0 {
                    assert(v@ == spec_expand_ipv6(*self, seq![]));
                } else if let Ok(l) = read {
                    assert(v@ == spec_expand_ipv6(*self, l@));
                }
            }
        }
        r
    }
}

impl IpAddrExt for IpAddr {
    /// Expands the address as `Ipv4AddrExt` or `Ipv6AddrExt` does for its family.
    fn expand_local_unspecified(&self) -> (r: Result<Vec<IpAddr>, std::io::Error>)
        ensures
            !ip_unspecified(*self) ==> (r matches Ok(v) && v@ == seq![*self]),
            r matches Ok(v) ==> exists|ifs: Seq<IfAddr>| v@ == spec_expand_ip(*self, ifs),
    {
        let unspecified = match self {
            IpAddr::V4(a) => a.is_unspecified(),
            IpAddr::V6(a) => a.is_unspecified(),
        };
        let ifs = if unspecified {
            interface_addrs()
        } else {
            Ok(Vec::new())
        };
        let ghost read = ifs;
        let r = expand_ip_from(*self, ifs);
        let ghost res = r;
        proof {
            if let Ok(v) = res {
                if !ip_unspecified(*self) {
                    assert(v@ == spec_expand_ip(*self, seq![])) by {
                        match *self {
                            IpAddr::V4(a) => assert(seq![a].map_values(|x: Ipv4Addr| IpAddr::V4(x)) =~= seq![*self]),
                            IpAddr::V6(a) => assert(seq![a].map_values(|x: Ipv6Addr| IpAddr::V6(x)) =~= seq![*self]),
                        }
                    }
                } else if let Ok(l) = read {
                    assert(v@ == spec_expand_ip(*self, l@));
                }
            }
        }
        r
    }
}

/// Whether an interface address is an IPv4 address equal to `ip`.
pub open spec fn is_v4_interface_with(ifa: IfAddr, ip: Ipv4Addr) -> bool {
    match ifa {
        IfAddr::V4(a) => a.ip == ip,
        IfAddr::V6(_) => false,
    }
}

/// Whether an interface address is an IPv6 address equal to `ip`.
pub open spec fn is_v6_interface_with(ifa: IfAddr, ip: Ipv6Addr) -> bool {
    match ifa {
        IfAddr::V6(a) => a.ip == ip,
        IfAddr::V4(_) => false,
    }
}

/// Whether some interface in `ifs` has the IPv4 address `ip`.
pub open spec fn has_v4_interface(ifs: Seq<IfAddr>, ip: Ipv4Addr) -> bool {
    exists|i: int| 0 <= i < ifs.len() && #[trigger] is_v4_interface_with(ifs[i], ip)
}

/// Whether some interface in `ifs` has the IPv6 address `ip`.
pub open spec fn has_v6_interface(ifs: Seq<IfAddr>, ip: Ipv6Addr) -> bool {
    exists|i: int| 0 <= i < ifs.len() && #[trigger] is_v6_interface_with(ifs[i], ip)
}

/// An address is among the IPv4 interface addresses exactly when some
/// interface has it.
pub proof fn lemma_v4_interface_ips_members(ifs: Seq<IfAddr>, ip: Ipv4Addr)
    ensures
        v4_interface_ips(ifs).contains(ip) <==> has_v4_interface(ifs, ip),
    decreases ifs.len(),
{
    if ifs.len() > 0 {
        let rest = ifs.drop_last();
        lemma_v4_interface_ips_members(rest, ip);
        if has_v4_interface(rest, ip) {
            let i = choose|i: int| 0 <= i < rest.len() && #[trigger] is_v4_interface_with(rest[i], ip);
            assert(ifs[i] == rest[i]);
        }
        if has_v4_interface(ifs, ip) {
            let i = choose|i: int| 0 <= i < ifs.len() && #[trigger] is_v4_interface_with(ifs[i], ip);
            if i < ifs.len() - 1 {
                assert(rest[i] == ifs[i]);
            } else {
                assert(ifs.last() == ifs[i]);
            }
        }
        match ifs.last() {
            IfAddr::V4(a) => {
                let l = v4_interface_ips(rest).push(a.ip);
                assert(l[l.len() - 1] == a.ip);
                if a.ip == ip {
                    assert(is_v4_interface_with(ifs[ifs.len() - 1], ip));
                }
                if l.contains(ip) && a.ip != ip {
                    let k = choose|k: int| 0 <= k < l.len() && l[k] == ip;
                    assert(v4_interface_ips(rest)[k] == ip);
                }
                if v4_interface_ips(rest).contains(ip) {
                    let k = choose|k: int| 0 <= k < v4_interface_ips(rest).len() && v4_interface_ips(rest)[k] == ip;
                    assert(l[k] == ip);
                }
            },
            IfAddr::V6(_) => {},
        }
    }
}

/// An address is among the IPv6 interface addresses exactly when some
/// interface has it.
pub proof fn lemma_v6_interface_ips_members(ifs: Seq<IfAddr>, ip: Ipv6Addr)
    ensures
        v6_interface_ips(ifs).contains(ip) <==> has_v6_interface(ifs, ip),
    decreases ifs.len(),
{
    if ifs.len() > 0 {
        let rest = ifs.drop_last();
        lemma_v6_interface_ips_members(rest, ip);
        if has_v6_interface(rest, ip) {
            let i = choose|i: int| 0 <= i < rest.len() && #[trigger] is_v6_interface_with(rest[i], ip);
            assert(ifs[i] == rest[i]);
        }
        if has_v6_interface(ifs, ip) {
            let i = choose|i: int| 0 <= i < ifs.len() && #[trigger] is_v6_interface_with(ifs[i], ip);
            if i < ifs.len() - 1 {
                assert(rest[i] == ifs[i]);
            } else {
                assert(ifs.last() == ifs[i]);
            }
        }
        match ifs.last() {
            IfAddr::V6(a) => {
                let l = v6_interface_ips(rest).push(a.ip);
                assert(l[l.len() - 1] == a.ip);
                if a.ip == ip {
                    assert(is_v6_interface_with(ifs[ifs.len() - 1], ip));
                }
                if l.contains(ip) && a.ip != ip {
                    let k = choose|k: int| 0 <= k < l.len() && l[k] == ip;
                    assert(v6_interface_ips(rest)[k] == ip);
                }
                if v6_interface_ips(rest).contains(ip) {
                    let k = choose|k: int| 0 <= k < v6_interface_ips(rest).len() && v6_interface_ips(rest)[k] == ip;
                    assert(l[k] == ip);
                }
            },
            IfAddr::V4(_) => {},
        }
    }
}

/// Expanding an IP address against an interface list: a specified address
/// stands for itself whatever the list; the unspecified address stands for
/// exactly the addresses of the list's interfaces of its family, so it
/// gives nothing only when no interface of that family is listed, and never
/// gives the unspecified address unless an interface has it.
pub proof fn lemma_expand_ip_members(addr: IpAddr, ifs: Seq<IfAddr>)
    ensures
        !ip_unspecified(addr) ==> spec_expand_ip(addr, ifs) == seq![addr],
        ip_unspecified(addr) ==> forall|x: IpAddr|
            #![trigger spec_expand_ip(addr, ifs).contains(x)]
            spec_expand_ip(addr, ifs).contains(x) <==> match (addr, x) {
                (IpAddr::V4(_), IpAddr::V4(x4)) => has_v4_interface(ifs, x4),
                (IpAddr::V6(_), IpAddr::V6(x6)) => has_v6_interface(ifs, x6),
                _ => false,
            },
{
    match addr {
        IpAddr::V4(a) => {
            if a.bits != 0 {
                assert(seq![a].map_values(|x: Ipv4Addr| IpAddr::V4(x)) =~= seq![addr]);
            } else {
                let l = v4_interface_ips(ifs);
                let m = l.map_values(|x: Ipv4Addr| IpAddr::V4(x));
                assert forall|x: IpAddr| #![trigger spec_expand_ip(addr, ifs).contains(x)]
                    spec_expand_ip(addr, ifs).contains(x) <==> match (addr, x) {
                        (IpAddr::V4(_), IpAddr::V4(x4)) => has_v4_interface(ifs, x4),
                        (IpAddr::V6(_), IpAddr::V6(x6)) => has_v6_interface(ifs, x6),
                        _ => false,
                    } by {
                    if m.contains(x) {
                        let k = choose|k: int| 0 <= k < m.len() && m[k] == x;
                        assert(m[k] == IpAddr::V4(l[k]));
                        lemma_v4_interface_ips_members(ifs, l[k]);
                    }
                    if let IpAddr::V4(x4) = x {
                        lemma_v4_interface_ips_members(ifs, x4);
                        if l.contains(x4) {
                            let k = choose|k: int| 0 <= k < l.len() && l[k] == x4;
                            assert(m[k] == x);
                        }
                    }
                }
            }
        },
        IpAddr::V6(a) => {
            if a.bits != 0 {
                assert(seq![a].map_values(|x: Ipv6Addr| IpAddr::V6(x)) =~= seq![addr]);
            } else {
                let l = v6_interface_ips(ifs);
                let m = l.map_values(|x: Ipv6Addr| IpAddr::V6(x));
                assert forall|x: IpAddr| #![trigger spec_expand_ip(addr, ifs).contains(x)]
                    spec_expand_ip(addr, ifs).contains(x) <==> match (addr, x) {
                        (IpAddr::V4(_), IpAddr::V4(x4)) => has_v4_interface(ifs, x4),
                        (IpAddr::V6(_), IpAddr::V6(x6)) => has_v6_interface(ifs, x6),
                        _ => false,
                    } by {
                    if m.contains(x) {
                        let k = choose|k: int| 0 <= k < m.len() && m[k] == x;
                        assert(m[k] == IpAddr::V6(l[k]));
                        lemma_v6_interface_ips_members(ifs, l[k]);
                    }
                    if let IpAddr::V6(x6) = x {
                        lemma_v6_interface_ips_members(ifs, x6);
                        if l.contains(x6) {
                            let k = choose|k: int| 0 <= k < l.len() && l[k] == x6;
                            assert(m[k] == x);
                        }
                    }
                }
            }
        },
    }
}

} // verus!
