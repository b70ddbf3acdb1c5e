[package]
name = "dawn_host"
version = "0.1.0"
edition = "2021"
publish = false

[dependencies]
sha2 = "0.10"
hex = "0.4"
tokio = { version = "1", features = ["full"] }
sysinfo = "*"
chrono = "0.4"

[dev-dependencies]
serde_json = "1"
