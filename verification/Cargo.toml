[package]
name = "megolm_inbound"
version = "0.1.0"
edition = "2021"
publish = false

[dependencies]
base64 = "0.13"
ed25519-dalek = { version = "2", features = ["rand_core"] }
x25519-dalek = { version = "2", features = ["static_secrets"] }
rand = "0.8"
zeroize = "1"
serde = { version = "1", features = ["derive"] }
