[package]
name = "vendctl"
version = "0.1.0"
edition = "2021"
publish = false

[dependencies]
anyhow = "1"
embedded-svc = "*"
esp-idf-svc = "*"
lazy_static = "1"
serde = { version = "1", features = ["derive"] }
serde_json = "1"
