[package]
name = "tokio_nat_traversal"
version = "0.1.0"
edition = "2021"
publish = false

[dependencies]
bincode = "0.8"
serde = "1"
get_if_addrs = "0.5"
futures = "0.1"
tokio-core = "0.1"
tokio-io = "0.1"
net2 = "0.2"
igd = "0.12"
future-utils = "0.3"
tokio-shared-udp-socket = "0.5"
bytes = "0.4"
void = "1"
lazy_static = "1"
log = "0.3"
