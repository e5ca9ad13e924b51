[package]
name = "dsp_rs"
version = "0.1.0"
edition = "2021"
publish = false

[dependencies]
chrono = "=0.4.45"
url = "=2.5.8"
percent-encoding = "=2.3.2"
serde = { version = "=1.0.229", features = ["derive"] }
serde_json = "=1.0.154"
base64 = "=0.22.1"
p256 = { version = "=0.14.0", features = ["pkcs8", "pem"] }
rand = "=0.10.3"
axum = { version = "=0.8.9", features = ["ws"] }
tokio = { version = "=1.54.1", features = ["full"] }
tokio-util = "=0.7.20"
tower-http = { version = "=0.6.11", features = ["trace"] }
futures = "=0.3.34"
tracing = "=0.1.44"
