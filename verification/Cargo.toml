[package]
name = "abut"
version = "0.1.0"
edition = "2021"
publish = false

[dependencies]
postcard = { version = "=1.1.3", features = ["alloc"] }
serde = "=1.0.229"
serde_cbor = "=0.11.2"
