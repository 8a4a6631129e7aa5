[package]
name = "vibedb"
version = "1.0.0"
edition = "2021"
publish = false

[dependencies]
anyhow = "1"
argon2 = "0.5"
async-stream = "0.3"
axum = { version = "0.7", features = ["multipart"] }
base64 = "0.22"
chrono = "0.4"
dashmap = "5"
futures = "0.3"
jsonwebtoken = "9"
mime_guess = "2"
rand = "0.8"
rusqlite = { version = "*", features = ["bundled"] }
rust-embed = "8"
serde = { version = "1", features = ["derive"] }
serde_json = "1"
thiserror = "1"
tokio = { version = "1", features = ["full"] }
tokio-rusqlite = "0.5"
tower-http = { version = "0.5", features = ["cors", "trace"] }
tracing = "0.1"
tracing-subscriber = "0.3"
