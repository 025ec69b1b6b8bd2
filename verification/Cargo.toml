[package]
name = "backend"
version = "0.1.0"
edition = "2021"
publish = false

[dependencies]
chrono = "=0.4.45"
rust_decimal = "=1.43.0"
uuid = { version = "=1.29.1", features = ["v4"] }
serde_json = "=1.0.154"
