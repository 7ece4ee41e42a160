[package]
name = "netlink_dgram"
version = "0.1.0"
edition = "2021"
publish = false

[dependencies]
nix = "=0.26.4"
mio = "=0.6.23"
rustix = { version = "=1.1.5", features = ["net", "time"] }
