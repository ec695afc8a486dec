[package]
name = "sr_formats"
version = "0.1.0"
edition = "2021"
publish = false

[dependencies]
encoding_rs = "0.8"
mint = "0.5"
glob = "0.3"
serde = { version = "1", features = ["derive"] }

[dev-dependencies]
nom = "7"
