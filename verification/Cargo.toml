[package]
name = "crypto_service_provider"
version = "0.1.0"
edition = "2021"
publish = false

[dependencies]
blst = "0.3"
ed25519-consensus = "2"
parking_lot = "0.12"
rand = "0.8"
rand_chacha = "0.3"
sha2 = "0.10"
tokio = { version = "1", features = ["rt", "net", "io-util"] }
