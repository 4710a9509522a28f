use vstd::prelude::*;
use crate::addr::SocketAddr;
use crate::codec::{encode_socket_addr, spec_encode_socket_addr};
use crate::os::IfAddr;
use crate::socket_addr::{socket_ip_unspecified, spec_expand_socket, SocketAddrExt};
use crate::{echo_req, spec_echo_req};

verus! {

/// Whether a datagram is an echo request, which a rendezvous server answers
/// with the sender's address.
pub fn is_echo_request(msg: &[u8]) -> (r: bool)
    ensures
        r == (msg@ == spec_echo_req()),
{
    let req = echo_req();
    if msg.len() != req.len() {
        return false;
    }
    let mut i: usize = 0;
    while i < msg.len()
        invariant
            i <= msg.len(),
            msg.len() == req@.len(),
            req@ == spec_echo_req(),
            forall|j: int| 0 <= j < i ==> msg@[j] == req@[j],
        decreases msg.len() - i,
    {
        if msg[i] != req[i] {
            return false;
        }
        i = i + 1;
    }
    assert(msg@ =~= req@);
    true
}

/// The answer a rendezvous server sends to a datagram `msg` from `from`:
/// to an echo request, the sender's address encoded; to anything else, none.
pub fn echo_reply(msg: &[u8], from: &SocketAddr) -> (r: Option<Vec<u8>>)
    ensures
        r is Some <==> msg@ == spec_echo_req(),
        r matches Some(bytes) ==> bytes@ == spec_encode_socket_addr(*from),
{
    if is_echo_request(msg) {
        Some(encode_socket_addr(from).unwrap())
    } else {
        None
    }
}

/// A server that tells each peer sending it an echo request the address it
/// sees the peer at.
pub struct UdpRendezvousServer {
    local_addr: SocketAddr,
}

impl UdpRendezvousServer {
    /// The local address that this server is bound to.
    pub closed spec fn spec_local_addr(&self) -> SocketAddr {
        self.local_addr
    }

    /// A server on a socket, given what the socket reports as its local
    /// address; fails with the socket's error when it cannot report one.
    pub fn from_socket(socket_local_addr: Result<SocketAddr, std::io::Error>) -> (r: Result<
        UdpRendezvousServer,
        std::io::Error,
    >)
        ensures
            match socket_local_addr {
                Ok(a) => r matches Ok(server) && server.spec_local_addr() == a,
                Err(e) => r == Err::<UdpRendezvousServer, std::io::Error>(e),
            },
    {
        let local_addr = socket_local_addr?;
        Ok(UdpRendezvousServer { local_addr })
    }

    /// Returns the local address that this rendezvous server is bound to.
    pub fn local_addr(&self) -> (r: SocketAddr)
        ensures
            r == self.spec_local_addr(),
    {
        self.local_addr
    }

    /// Returns all local addresses of this rendezvous server, expanding the
    /// unspecified address into a vector of all local interface addresses.
    pub fn expanded_local_addrs(&self) -> (r: Result<Vec<SocketAddr>, std::io::Error>)
        ensures
            !socket_ip_unspecified(self.spec_local_addr()) ==> (r matches Ok(v) && v@ == seq![
                self.spec_local_addr(),
            ]),
            r matches Ok(v) ==> exists|ifs: Seq<IfAddr>| v@ == spec_expand_socket(self.spec_local_addr(), ifs),
    {
        let addrs = self.local_addr.expand_local_unspecified()?;
        Ok(addrs)
    }
}

} // verus!
