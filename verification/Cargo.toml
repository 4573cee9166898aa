[package]
name = "courier"
version = "0.1.0"
edition = "2021"
publish = false

[dependencies]
async-recursion = "=1.2.0"
axum = "=0.6.20"
axum-extra = { version = "=0.4.2", features = ["spa"] }
base64 = "=0.21.7"
chrono = "=0.4.45"
futures = "=0.3.34"
http = "=1.5.0"
reqwest = { version = "=0.11.27", features = ["json"] }
serde = { version = "=1.0.229", features = ["derive"] }
serde_json = "=1.0.154"
sha2 = "=0.10.9"
sigh = "=1.0.3"
systemd = "=0.10.1"
thiserror = "=1.0.69"
tokio = { version = "=1.54.1", features = ["full"] }
tokio-postgres = "=0.7.18"
tracing = "=0.1.44"
tracing-subscriber = { version = "=0.3.23", features = ["env-filter"] }
urlencoding = "=2.1.3"
