[package]
name = "session_verification"
version = "0.1.0"
edition = "2021"
publish = false

[dependencies]
anyhow = "=1.0.104"
assign = "=1.1.1"
chrono = "=0.4.45"
derive_builder = "=0.11.2"
env_logger = "=0.9.3"
fern = "=0.6.2"
futures = "=0.3.34"
lazy_static = "=1.5.1"
log = "=0.4.34"
log-panics = "=2.1.0"
matrix-sdk = "=0.6.2"
oslog = "0.2"
parking_lot = "=0.12.5"
reqwest = { version = "=0.11.27", features = ["multipart"] }
ruma = { version = "=0.7.4", features = ["events", "client-api-c"] }
serde = { version = "=1.0.229", features = ["derive"] }
serde_json = "=1.0.154"
tokio = { version = "=1.54.1", features = ["rt-multi-thread"] }
url = "=2.5.8"
