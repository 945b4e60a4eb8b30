[package]
name = "franklin_tx"
version = "0.1.0"
edition = "2021"
publish = false

[dependencies]
num = { version = "0.4", features = ["serde"] }
parity-crypto = "*"
serde = { version = "1", features = ["derive"] }
zksync_basic_types = "*"
