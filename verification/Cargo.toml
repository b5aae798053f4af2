[package]
name = "bhtune-server"
version = "0.1.0"
edition = "2021"
publish = false

[dependencies]
anyhow = "1"
async-stream = "0.3"
axum = "0.8"
chrono = "0.4"
clap = { version = "4", features = ["derive"] }
rand = "0.9"
rust-embed = "8"
serde = { version = "1", features = ["derive"] }
serde_json = "1"
sha2 = "0.10"
tokio = { version = "1", features = ["full"] }
tower-http = { version = "0.6", features = ["limit", "timeout"] }
tracing = "0.1"
tracing-appender = "0.2"
utoipa = "5"
