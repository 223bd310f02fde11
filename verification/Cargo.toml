[package]
name = "eth2_utils"
version = "0.1.0"
edition = "2021"
publish = false

[dependencies]
enr = { version = "=0.14.0", features = ["ed25519"] }
libp2p-identity = { version = "=0.3.0", features = ["secp256k1", "ed25519", "peerid"] }
sha2 = "=0.11.0"
