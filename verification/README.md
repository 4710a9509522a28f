# tokio_nat_traversal

Tools for making a socket reachable from across the internet: asking the
local gateway for a port mapping, asking traversal (echo) servers which
public address they see us at, and answering such questions as a UDP
rendezvous server.

The crate is split in two:

- `src/` is the library, written in Verus. Its decisions are verified
  functions with contracts:
  - `addr`, `protocol`: socket addresses and protocols as plain values;
  - `os`: the machine's interface addresses (read through `get_if_addrs`);
  - `ip_addr`, `socket_addr`: expansion of an unspecified address into the
    addresses of the local interfaces;
  - `igd_async`: subnet tests, choosing the local address that faces a
    gateway, and the port-mapping request sent to it;
  - `codec`: the wire encoding of addresses (through `bincode`);
  - `mc`: the traversal-server registry and the reading of echo answers;
  - `open_addr`: the state machine that turns traversal-server answers into
    one public address, or an error;
  - `udp::rendezvous_server`: the rendezvous server's state and its
    answer to echo requests.
- `app/` holds the sockets, timers, threads, channels and futures that run
  around it (tokio-core, net2, igd): it performs each action the library
  asks for and reports back what happened. It also hands out the live
  streams of traversal servers (telling them of each server the library
  reports as new) and keeps the process-wide registry.

`tests/` exercises the library on concrete values.
