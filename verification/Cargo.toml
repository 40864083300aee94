[package]
name = "ssb_handshake"
version = "0.1.0"
edition = "2021"
publish = false

[dependencies]
ssb-crypto = "=0.2.3"
ed25519-dalek = "=1.0.1"
futures-io = "=0.3.34"
futures-util = { version = "=0.3.34", features = ["io"] }
