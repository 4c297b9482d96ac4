[package]
name = "ed25519_streaming"
version = "0.1.0"
edition = "2021"
publish = false

[dependencies]
sha2 = "*"
blake2 = "*"
curve25519-dalek = "*"
ed25519-dalek = "*"
zeroize = "*"

[dev-dependencies]
hex = "*"
