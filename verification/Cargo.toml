[package]
name = "centy_installer"
version = "0.1.0"
edition = "2021"
publish = false

[dependencies]
dirs = "*"
flate2 = "1"
hex = "0.4"
reqwest = { version = "0.12", default-features = false, features = ["blocking", "rustls-tls"] }
serde_json = "1"
sha2 = "0.10"
tar = "0.4"
thiserror = "*"
zip = { version = "2", default-features = false, features = ["deflate"] }
