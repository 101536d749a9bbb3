[package]
name = "consulrs"
version = "0.1.0"
edition = "2021"
publish = false

[dependencies]
base64 = "*"
reqwest = { version = "*", default-features = false, features = ["rustls-tls"] }
rustify = "*"
serde = { version = "*", features = ["derive"] }
serde_json = "*"

[dev-dependencies]
