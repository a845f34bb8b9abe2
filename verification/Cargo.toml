[package]
name = "sensit_decoder"
version = "0.1.0"
edition = "2021"
publish = false

[dependencies]
serde = { version = "1", features = ["derive"] }
serde_derive = "1"
serde_json = "1"
serde_repr = "0.1"
wee_alloc = "0.4"
