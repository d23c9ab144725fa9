[package]
name = "fiber_ffi"
version = "0.1.0"
edition = "2021"
publish = false

[dependencies]
hex = "=0.4.3"
bech32 = "=0.8.1"
ckb-hash = "=1.1.1"
ckb-types = "=1.1.4"
ckb-sdk = { version = "=5.1.0", default-features = false }
secp256k1 = "=0.30.0"
tentacle-multiaddr = "=0.3.8"
serde = { version = "=1.0.229", features = ["derive"] }
serde_json = "=1.0.154"
serde_yaml = "=0.9.34"
tokio = { version = "=1.54.1", features = ["rt-multi-thread", "sync", "time"] }
