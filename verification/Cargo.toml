[package]
name = "gpapi"
version = "0.1.0"
edition = "2021"
publish = false

[dependencies]
roxmltree = "*"
reqwest = { version = "0.11", default-features = false, features = ["rustls-tls"] }
serde = { version = "*", features = ["derive"] }
specta = "1"
log = "*"
anyhow = "*"

[dev-dependencies]
base64 = "*"
