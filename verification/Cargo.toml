[package]
name = "remote_trait_object"
version = "0.1.0"
edition = "2021"
publish = false

[dependencies]
crossbeam = "0.8"
parking_lot = "0.12"
serde = { version = "1", features = ["derive"] }
serde_cbor = "0.11"

[dev-dependencies]
bincode = "1"
serde_json = "1"
