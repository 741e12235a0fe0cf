[package]
name = "texnouz_csms"
version = "0.1.0"
edition = "2021"
publish = false

[dependencies]
serde = { version = "=1.0.229", features = ["derive"] }
serde_json = "=1.0.154"
chrono = { version = "=0.4.45", features = ["serde"] }
validator = "=0.21.0"
tokio = { version = "=1.54.1", features = ["full"] }
uuid = { version = "=1.29.0", features = ["v4"] }
tracing = "=0.1.44"
log = "=0.4.35"
futures-util = "=0.3.34"
axum = { version = "=0.8.9", features = ["ws"] }
thiserror = "=2.0.21"
dashmap = "6"
