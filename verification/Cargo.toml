[package]
name = "code_relay"
version = "0.1.0"
edition = "2021"
publish = false

[dependencies]
serde_json = "1"
serde = { version = "1", features = ["derive"] }
axum = { version = "0.6", features = ["ws"] }
tokio = { version = "1", features = ["rt-multi-thread", "macros", "time", "sync"] }
futures-util = "0.3"
log = "0.4"
fern = { version = "0.6", features = ["colored"] }
chrono = "0.4"
dotenv = "0.15"
anyhow = "1"
