[package]
name = "statiq"
version = "0.2.0"
edition = "2021"
publish = false

[dependencies]
rust_decimal = "=1.43.0"
chrono = "=0.4.45"
uuid = { version = "=1.29.0", features = ["v4"] }
hex = "=0.4.3"
base64 = "=0.22.1"
aes-gcm = "=0.10.3"
serde = { version = "=1.0.229", features = ["derive"] }
serde_json = "=1.0.154"
thiserror = "=1.0.69"
tokio = { version = "=1.54.1", features = ["full"] }
tokio-util = { version = "=0.7.20", features = ["full"] }
async-trait = "=0.1.92"
tracing = "=0.1.44"
tracing-subscriber = { version = "=0.3.23", features = ["env-filter", "json"] }
crossbeam-channel = "=0.5.17"
odbc-api = "=29.3.0"
moka = { version = "=0.12.16", features = ["future"] }
bytes = "=1.12.1"
futures = "=0.3.34"
async-stream = "=0.3.6"
axum = "=0.8.9"
redis = { version = "=1.8.1", features = ["tokio-comp", "connection-manager"] }
