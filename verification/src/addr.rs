use vstd::prelude::*;

verus! {

/// An IPv4 address, held as its 32-bit big-endian value.
#[derive(Clone, Copy, Debug, PartialEq, Eq, Structural)]
pub struct Ipv4Addr {
    pub bits: u32,
}

/// An IPv6 address, held as its 128-bit big-endian value.
#[derive(Clone, Copy, Debug, PartialEq, Eq, Structural)]
pub struct Ipv6Addr {
    pub bits: u128,
}

/// The four octets of an IPv4 address value, most significant first.
pub open spec fn ipv4_octets(bits: u32) -> Seq<u8> {
    seq![(bits >> 24u32) as u8, (bits >> 16u32) as u8, (bits >> 8u32) as u8, bits as u8]
}

impl Ipv4Addr {
    /// The octets of this address, most significant first.
    pub open spec fn spec_octets(self) -> Seq<u8> {
        ipv4_octets(self.bits)
    }

    /// Builds the address `a.b.c.d`.
    pub fn new(a: u8, b: u8, c: u8, d: u8) -> (r: Ipv4Addr)
        ensures
            r.spec_octets() == seq![a, b, c, d],
    {
        let bits: u32 = ((a as u32) << 24u32) | ((b as u32) << 16u32) | ((c as u32) << 8u32) | (d as u32);
        assert(((bits >> 24u32) as u8) == a && ((bits >> 16u32) as u8) == b
            && ((bits >> 8u32) as u8) == c && (bits as u8) == d) by (bit_vector)
            requires
                bits == ((a as u32) << 24u32) | ((b as u32) << 16u32) | ((c as u32) << 8u32) | (d as u32),
        ;
        Ipv4Addr { bits }
    }

    /// The four octets of this address, most significant first.
    pub fn octets(&self) -> (r: [u8; 4])
        ensures
            r@ == self.spec_octets(),
    {
        let r: [u8; 4] = [(self.bits >> 24u32) as u8, (self.bits >> 16u32) as u8, (self.bits >> 8u32) as u8, self.bits as u8];
        assert(r@ =~= self.spec_octets());
        r
    }

    /// Whether this is the unspecified address `0.0.0.0`.
    pub fn is_unspecified(&self) -> (r: bool)
        ensures
            r == (self.bits == 0),
    {
        self.bits == 0
    }
}

impl Ipv6Addr {
    /// Whether this is the unspecified address `::`.
    pub fn is_unspecified(&self) -> (r: bool)
        ensures
            r == (self.bits == 0),
    {
        self.bits == 0
    }
}

/// An IPv4 or IPv6 address.
#[derive(Clone, Copy, Debug, PartialEq, Eq, Structural)]
pub enum IpAddr {
    V4(Ipv4Addr),
    V6(Ipv6Addr),
}

/// An IPv4 socket address.
#[derive(Clone, Copy, Debug, PartialEq, Eq, Structural)]
pub struct SocketAddrV4 {
    pub ip: Ipv4Addr,
    pub port: u16,
}

/// An IPv6 socket address with its flow information and scope id.
#[derive(Clone, Copy, Debug, PartialEq, Eq, Structural)]
pub struct SocketAddrV6 {
    pub ip: Ipv6Addr,
    pub port: u16,
    pub flowinfo: u32,
    pub scope_id: u32,
}

/// An IPv4 or IPv6 socket address.
#[derive(Clone, Copy, Debug, PartialEq, Eq, Structural)]
pub enum SocketAddr {
    V4(SocketAddrV4),
    V6(SocketAddrV6),
}

impl SocketAddr {
    /// The IP address of this socket address.
    pub open spec fn spec_ip(self) -> IpAddr {
        match self {
            SocketAddr::V4(a) => IpAddr::V4(a.ip),
            SocketAddr::V6(a) => IpAddr::V6(a.ip),
        }
    }

    /// The port of this socket address.
    pub open spec fn spec_port(self) -> u16 {
        match self {
            SocketAddr::V4(a) => a.port,
            SocketAddr::V6(a) => a.port,
        }
    }

    /// The IP address of this socket address.
    pub fn ip(&self) -> (r: IpAddr)
        ensures
            r == self.spec_ip(),
    {
        match self {
            SocketAddr::V4(a) => IpAddr::V4(a.ip),
            SocketAddr::V6(a) => IpAddr::V6(a.ip),
        }
    }

    /// The port of this socket address.
    pub fn port(&self) -> (r: u16)
        ensures
            r == self.spec_port(),
    {
        match self {
            SocketAddr::V4(a) => a.port,
            SocketAddr::V6(a) => a.port,
        }
    }
}

} // verus!
