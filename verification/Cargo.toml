[package]
name = "inv"
version = "0.1.0"
edition = "2021"
publish = false

[dependencies]
base64 = "0.22"
sha2 = "0.10"
subtle = "2"
rust_decimal = "1"
chrono = { version = "0.4", default-features = false, features = ["std", "clock"] }
serde = { version = "1", features = ["derive"] }
serde_json = "1"
toml = "0.8"
