[package]
name = "piped"
version = "0.1.0"
edition = "2021"
publish = false

[dependencies]
url = "2"
serde_json = "1"
reqwest = { version = "0.11", default-features = false, features = ["rustls-tls"] }
