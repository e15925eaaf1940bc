[package]
name = "ovh"
version = "0.2.0"
edition = "2021"
publish = false

[dependencies]
chrono = "0.4"
rust-crypto = "0.2"
toml = { version = "0.2", default-features = false }
reqwest = { version = "0.11", default-features = false, features = ["blocking", "rustls-tls"] }

[dev-dependencies]
serde_json = "1"
