[package]
name = "aura4973"
version = "0.1.0"
edition = "2021"
publish = false

[dependencies]
bech32 = "0.9"
ripemd = "0.1"
sha2 = "0.10"
cosmwasm-std = "1"
serde = { version = "1", features = ["derive"] }

[dev-dependencies]
k256 = { version = "0.13", features = ["ecdsa"] }
