[package]
name = "codex_relay"
version = "0.1.0"
edition = "2021"
publish = false

[dependencies]
async-trait = "0.1"
axum = "0.8"
axum-auth = "0.8"
base64 = "=0.22.1"
bytes = "1"
chrono = { version = "0.4", features = ["serde"] }
colored = "3"
eventsource-stream = "0.2"
futures = "0.3"
http = "1"
ractor = "=0.16.5"
serde = { version = "1", features = ["derive"] }
serde_json = "=1.0.154"
tokio = { version = "1", features = ["rt", "time", "sync", "macros"] }
tracing = "0.1"
url = "=2.5.8"
wreq = { version = "=0.15.3", features = ["json", "stream"] }
wreq-util = "=0.1.0"
