[package]
name = "elastic_eye"
version = "0.1.0"
edition = "2021"
publish = false

[dependencies]
chrono = "=0.4.45"
elasticsearch = "=8.15.0-alpha.1"
rusqlite = "=0.32.1"
serde = { version = "=1.0.229", features = ["derive"] }
serde_json = { version = "=1.0.154", features = ["preserve_order"] }
tokio = { version = "=1.54.1", features = ["full"] }
tokio-rusqlite = "=0.6.0"
tracing-subscriber = "=0.3.23"
url = "=2.5.8"
