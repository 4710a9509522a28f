use vstd::prelude::*;

verus! {

/// The transport protocol that an address is opened for.
#[derive(Clone, Copy, Debug, PartialEq, Eq, Structural)]
pub enum Protocol {
    Tcp,
    Udp,
}

} // verus!
