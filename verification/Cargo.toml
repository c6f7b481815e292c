[package]
name = "ekke_io"
version = "0.1.0"
edition = "2021"
publish = false

[dependencies]
rand = "0.8"
serde = { version = "1", features = ["derive"] }
serde_cbor = "0.11"
hashbrown = "*"
