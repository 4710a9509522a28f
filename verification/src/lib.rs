//! Verified core of a NAT-traversal toolkit: address modelling, subnet tests,
//! expansion of unspecified addresses into interface addresses, the echo
//! protocol used by rendezvous servers, the traversal-server registry and the
//! decision logic that opens a public address for a local socket.

use vstd::prelude::*;

pub mod addr;
pub mod os;
pub mod ip_addr;
pub mod socket_addr;
pub mod protocol;
pub mod igd_async;
pub mod codec;
pub mod mc;
pub mod open_addr;
pub mod udp;

verus! {

/// The datagram that asks a rendezvous server for the sender's public address:
/// the ASCII text `ECHOADDR`.
pub open spec fn spec_echo_req() -> Seq<u8> {
    seq![69u8, 67u8, 72u8, 79u8, 65u8, 68u8, 68u8, 82u8]
}

/// The datagram that asks a rendezvous server for the sender's public address:
/// the ASCII text `ECHOADDR`.
pub fn echo_req() -> (r: [u8; 8])
    ensures
        r@ == spec_echo_req(),
{
    let r: [u8; 8] = [69u8, 67u8, 72u8, 79u8, 65u8, 68u8, 68u8, 82u8];
    assert(r@ =~= spec_echo_req());
    r
}

} // verus!
