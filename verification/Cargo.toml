[package]
name = "brreg"
version = "0.1.0"
edition = "2021"
publish = false

[dependencies]
reqwest = { version = "0.11", default-features = false, features = ["blocking", "rustls-tls"] }
serde = "1"
serde_derive = "1"
serde_json = "1"
