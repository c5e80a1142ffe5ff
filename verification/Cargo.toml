[package]
name = "seeded_wallet"
version = "0.1.0"
edition = "2021"
publish = false

[dependencies]
secp256k1 = { version = "0.20", features = ["rand"] }
tiny-keccak = "1"
web3 = { version = "0.19", default-features = false, features = ["http"] }
tokio = { version = "1", features = ["rt-multi-thread", "macros"] }
