use vstd::prelude::*;
use crate::addr::SocketAddr;
use crate::codec::{decode_socket_addr, spec_decode_socket_addr};
use crate::protocol::Protocol;

verus! {

/// Why asking a traversal (echo) server for our public address failed.
#[derive(Debug)]
pub enum QueryPublicAddrError {
    Bind(std::io::Error),
    Connect(std::io::Error),
    ConnectTimeout,
    SendRequest(std::io::Error),
    ReadResponse(std::io::Error),
    Deserialize(Box<bincode::ErrorKind>),
    ResponseTimeout,
}

impl QueryPublicAddrError {
    /// A short description of the failure.
    pub fn description(&self) -> (r: &'static str)
        ensures
            r@ == match *self {
                QueryPublicAddrError::Bind(_) => "error binding to socket address"@,
                QueryPublicAddrError::Connect(_) => "error connecting to echo server"@,
                QueryPublicAddrError::ConnectTimeout => "timed out contacting server"@,
                QueryPublicAddrError::SendRequest(_) => "error sending request to echo server"@,
                QueryPublicAddrError::ReadResponse(_) => "error reading response from echo server"@,
                QueryPublicAddrError::Deserialize(_) => "error deserializing response from echo server"@,
                QueryPublicAddrError::ResponseTimeout => "timed out waiting for response from echo server"@,
            },
    {
        match self {
            QueryPublicAddrError::Bind(_) => "error binding to socket address",
            QueryPublicAddrError::Connect(_) => "error connecting to echo server",
            QueryPublicAddrError::ConnectTimeout => "timed out contacting server",
            QueryPublicAddrError::SendRequest(_) => "error sending request to echo server",
            QueryPublicAddrError::ReadResponse(_) => "error reading response from echo server",
            QueryPublicAddrError::Deserialize(_) => "error deserializing response from echo server",
            QueryPublicAddrError::ResponseTimeout => "timed out waiting for response from echo server",
        }
    }
}

/// The contents of a server set after adding `addr`: unchanged when it is
/// already there, otherwise `addr` appended.
pub open spec fn spec_add_server(servers: Seq<SocketAddr>, addr: SocketAddr) -> Seq<SocketAddr> {
    if servers.contains(addr) {
        servers
    } else {
        servers.push(addr)
    }
}

/// The contents of a server set after removing `addr`: every other server, in order.
pub open spec fn spec_remove_server(servers: Seq<SocketAddr>, addr: SocketAddr) -> Seq<SocketAddr> {
    servers.filter(|x: SocketAddr| x != addr)
}

/// A set of traversal servers, kept in the order they were added.
pub struct ServerSet {
    servers: Vec<SocketAddr>,
}

impl View for ServerSet {
    type V = Seq<SocketAddr>;

    closed spec fn view(&self) -> Seq<SocketAddr> {
        self.servers@
    }
}

impl ServerSet {
    /// No server occurs twice.
    #[verifier::type_invariant]
    spec fn inv(&self) -> bool {
        self.servers@.no_duplicates()
    }

    /// An empty set.
    pub fn new() -> (r: ServerSet)
        ensures
            r@ == Seq::<SocketAddr>::empty(),
    {
        ServerSet { servers: Vec::new() }
    }

    /// Whether `addr` is in the set.
    pub fn contains(&self, addr: &SocketAddr) -> (r: bool)
        ensures
            r == self@.contains(*addr),
    {
        let mut i: usize = 0;
        while i < self.servers.len()
            invariant
                i <= self.servers.len(),
                forall|j: int| 0 <= j < i ==> self.servers@[j] != *addr,
            decreases self.servers.len() - i,
        {
            if self.servers[i] == *addr {
                return true;
            }
            i = i + 1;
        }
        false
    }

    /// Adds a server; tells whether it is new to the set.
    pub fn add_server(&mut self, addr: &SocketAddr) -> (added: bool)
        ensures
            final(self)@ == spec_add_server(old(self)@, *addr),
            final(self)@.no_duplicates(),
            added == !old(self)@.contains(*addr),
    {
        proof {
            use_type_invariant(&*self);
        }
        if !self.contains(addr) {
            let mut servers: Vec<SocketAddr> = Vec::new();
            std::mem::swap(&mut servers, &mut self.servers);
            servers.push(*addr);
            self.servers = servers;
            true
        } else {
            false
        }
    }

    /// Removes a server.
    pub fn remove_server(&mut self, addr: &SocketAddr)
        ensures
            final(self)@ == spec_remove_server(old(self)@, *addr),
            final(self)@.no_duplicates(),
    {
        proof {
            use_type_invariant(&*self);
        }
        let mut kept: Vec<SocketAddr> = Vec::new();
        let mut i: usize = 0;
        while i < self.servers.len()
            invariant
                i <= self.servers.len(),
                self.servers@.no_duplicates(),
                kept@ == spec_remove_server(self.servers@.take(i as int), *addr),
                kept@.no_duplicates(),
                forall|x: SocketAddr| kept@.contains(x) ==> self.servers@.take(i as int).contains(x),
            decreases self.servers.len() - i,
        {
            reveal_with_fuel(Seq::<_>::filter, 1);
            assert(self.servers@.take(i + 1).drop_last() =~= self.servers@.take(i as int));
            let s = self.servers[i];
            let ghost old_kept = kept@;
            if s != *addr {
                proof {
                    assert forall|x: SocketAddr| old_kept.contains(x) implies x != s by {
                        let k = choose|k: int| 0 <= k < i && #[trigger] self.servers@.take(i as int)[k] == x;
                        assert(self.servers@[k] == x);
                    }
                }
                assert(!old_kept.contains(s));
                kept.push(s);
                assert forall|a: int, b: int| 0 <= a < b < kept@.len() implies kept@[a] != kept@[b] by {
                    if b == kept@.len() - 1 {
                        assert(old_kept[a] == kept@[a]);
                    } else {
                        assert(old_kept[a] == kept@[a] && old_kept[b] == kept@[b]);
                    }
                }
            }
            assert(self.servers@.take(i + 1).last() == s);
            assert(spec_remove_server(self.servers@.take(i + 1), *addr) == (if s != *addr {
                spec_remove_server(self.servers@.take(i as int), *addr).push(s)
            } else {
                spec_remove_server(self.servers@.take(i as int), *addr)
            }));
            proof {
                assert forall|x: SocketAddr| kept@.contains(x) implies self.servers@.take(i + 1).contains(x) by {
                    if x == s {
                        assert(self.servers@.take(i + 1)[i as int] == s);
                    } else {
                        let j = choose|j: int| 0 <= j < kept@.len() && kept@[j] == x;
                        assert(old_kept[j] == x);
                        assert(old_kept.contains(x));
                        let k = choose|k: int| 0 <= k < i && #[trigger] self.servers@.take(i as int)[k] == x;
                        assert(self.servers@.take(i + 1)[k] == x);
                    }
                }
            }
            i = i + 1;
        }
        assert(self.servers@.take(self.servers.len() as int) =~= self.servers@);
        self.servers = kept;
    }

    /// The servers currently in the set, in the order they were added.
    pub fn iter_servers(&self) -> (r: Vec<SocketAddr>)
        ensures
            r@ == self@,
    {
        let mut r: Vec<SocketAddr> = Vec::new();
        let mut i: usize = 0;
        while i < self.servers.len()
            invariant
                i <= self.servers.len(),
                r@ == self.servers@.take(i as int),
            decreases self.servers.len() - i,
        {
            r.push(self.servers[i]);
            i = i + 1;
            assert(r@ =~= self.servers@.take(i as int));
        }
        assert(self.servers@.take(self.servers.len() as int) =~= self.servers@);
        r
    }
}

/// The traversal servers known for each protocol.
pub struct Mc {
    tcp_server_set: ServerSet,
    udp_server_set: ServerSet,
}

impl Mc {
    /// The servers known for `protocol`, in the order they were added.
    pub closed spec fn servers(&self, protocol: Protocol) -> Seq<SocketAddr> {
        match protocol {
            Protocol::Tcp => self.tcp_server_set@,
            Protocol::Udp => self.udp_server_set@,
        }
    }

    /// A registry that knows no server.
    pub fn new() -> (r: Mc)
        ensures
            r.servers(Protocol::Tcp) == Seq::<SocketAddr>::empty(),
            r.servers(Protocol::Udp) == Seq::<SocketAddr>::empty(),
    {
        Mc { tcp_server_set: ServerSet::new(), udp_server_set: ServerSet::new() }
    }

    fn server_set(&mut self, protocol: Protocol) -> (r: &mut ServerSet)
        ensures
            *r == match protocol {
                Protocol::Tcp => old(self).tcp_server_set,
                Protocol::Udp => old(self).udp_server_set,
            },
            match protocol {
                Protocol::Tcp => final(self).tcp_server_set == *final(r) && final(self).udp_server_set
                    == old(self).udp_server_set,
                Protocol::Udp => final(self).udp_server_set == *final(r) && final(self).tcp_server_set
                    == old(self).tcp_server_set,
            },
    {
        match protocol {
            Protocol::Udp => &mut self.udp_server_set,
            Protocol::Tcp => &mut self.tcp_server_set,
        }
    }

    /// Adds a traversal server for `protocol`; the other protocol's servers
    /// stay as they were. Tells whether the server is new for `protocol`,
    /// which is when the server streams handed out so far are told of it.
    pub fn add_server(&mut self, protocol: Protocol, addr: &SocketAddr) -> (added: bool)
        ensures
            added == !old(self).servers(protocol).contains(*addr),
            final(self).servers(protocol).no_duplicates(),
            final(self).servers(protocol) == spec_add_server(old(self).servers(protocol), *addr),
            forall|p: Protocol| p != protocol ==> final(self).servers(p) == old(self).servers(p),
    {
        self.server_set(protocol).add_server(addr)
    }

    /// Removes a traversal server for `protocol`; the other protocol's servers stay as they were.
    pub fn remove_server(&mut self, protocol: Protocol, addr: &SocketAddr)
        ensures
            final(self).servers(protocol).no_duplicates(),
            final(self).servers(protocol) == spec_remove_server(old(self).servers(protocol), *addr),
            forall|p: Protocol| p != protocol ==> final(self).servers(p) == old(self).servers(p),
    {
        self.server_set(protocol).remove_server(addr)
    }

    /// The traversal servers known for `protocol`, in the order they were added.
    pub fn iter_servers(&mut self, protocol: Protocol) -> (r: Vec<SocketAddr>)
        ensures
            r@ == old(self).servers(protocol),
            *final(self) == *old(self),
    {
        self.server_set(protocol).iter_servers()
    }
}

/// Whether a datagram that arrived from `from` while querying `server_addr`
/// is that server's answer; datagrams from anyone else are skipped.
pub fn is_echo_response_from(server_addr: &SocketAddr, from: &SocketAddr) -> (r: bool)
    ensures
        r == (*from == *server_addr),
{
    *from == *server_addr
}

/// What a traversal server's answer over TCP (all the bytes read from the
/// connection) says our public address is: the decoded address, or a
/// `Deserialize` error when the bytes do not decode.
pub fn tcp_echo_answer(data: &[u8]) -> (r: Result<SocketAddr, QueryPublicAddrError>)
    ensures
        r is Ok <==> spec_decode_socket_addr(data@) is Some,
        r matches Ok(a) ==> spec_decode_socket_addr(data@) == Some(a),
        r matches Err(e) ==> e is Deserialize,
{
    match decode_socket_addr(data) {
        Ok(a) => Ok(a),
        Err(e) => Err(QueryPublicAddrError::Deserialize(e)),
    }
}

/// What a datagram that arrived from `from` while querying `server_addr`
/// says: nothing when it comes from anyone else (keep waiting), otherwise the
/// decoded address, or a `Deserialize` error when its bytes do not decode.
pub fn udp_echo_answer(server_addr: &SocketAddr, from: &SocketAddr, data: &[u8]) -> (r: Option<
    Result<SocketAddr, QueryPublicAddrError>,
>)
    ensures
        *from != *server_addr ==> r is None,
        *from == *server_addr ==> (r matches Some(x) && (x is Ok <==> spec_decode_socket_addr(data@) is Some)
            && (x matches Ok(a) ==> spec_decode_socket_addr(data@) == Some(a)) && (x matches Err(e)
            ==> e is Deserialize)),
{
    if is_echo_response_from(server_addr, from) {
        Some(tcp_echo_answer(data))
    } else {
        None
    }
}

/// Removing a server that is not there changes nothing.
proof fn lemma_remove_absent(servers: Seq<SocketAddr>, addr: SocketAddr)
    requires
        !servers.contains(addr),
    ensures
        spec_remove_server(servers, addr) == servers,
    decreases servers.len(),
{
    reveal_with_fuel(Seq::<_>::filter, 1);
    if servers.len() > 0 {
        assert(!servers.drop_last().contains(addr)) by {
            if servers.drop_last().contains(addr) {
                let k = choose|k: int| 0 <= k < servers.drop_last().len() && servers.drop_last()[k] == addr;
                assert(servers[k] == addr);
            }
        }
        lemma_remove_absent(servers.drop_last(), addr);
        assert(servers.last() != addr) by {
            assert(servers[servers.len() - 1] == servers.last());
        }
        assert(servers.drop_last().push(servers.last()) =~= servers);
    }
}

/// A server that was added is there; a server that was removed is not.
pub proof fn lemma_server_set_add_remove_membership(servers: Seq<SocketAddr>, addr: SocketAddr)
    ensures
        spec_add_server(servers, addr).contains(addr),
        !spec_remove_server(servers, addr).contains(addr),
{
    if !servers.contains(addr) {
        assert(servers.push(addr)[servers.len() as int] == addr);
    }
    let pred = |x: SocketAddr| x != addr;
    servers.filter_lemma(pred);
}

/// Adding a server that was not there and then removing it gives back the set as it was.
pub proof fn lemma_server_set_add_then_remove(servers: Seq<SocketAddr>, addr: SocketAddr)
    requires
        !servers.contains(addr),
    ensures
        spec_remove_server(spec_add_server(servers, addr), addr) == servers,
{
    reveal_with_fuel(Seq::<_>::filter, 1);
    assert(servers.push(addr).drop_last() =~= servers);
    lemma_remove_absent(servers, addr);
}

} // verus!
