pub mod rendezvous_server;
