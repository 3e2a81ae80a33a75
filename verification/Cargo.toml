[package]
name = "zkevm_opcode_defs"
version = "0.1.0"
edition = "2021"
publish = false

[dependencies]
bitflags = "2"
blake2 = "0.10"
ethereum-types = "0.14.1"
k256 = { version = "0.13", features = ["arithmetic", "ecdsa"] }
lazy_static = "1.4"
sha2 = "0.10.8"
sha3 = "0.10.8"
