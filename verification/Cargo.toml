[package]
name = "mammoth_setup"
version = "0.0.1"
edition = "2021"
publish = false

[dependencies]
libloading = "=0.6.7"
chrono = "0.4"
semver = "1"
toml = "0.8"
serde = { version = "1", features = ["derive"] }
openssl = "0.10"
