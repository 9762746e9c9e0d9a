[package]
name = "api"
version = "0.1.0"
edition = "2021"
publish = false

[dependencies]
anyhow = "1"
async-stream = "0.3"
axum = "0.8"
chrono = "0.4"
colog = "1"
convex = "*"
dotenvy = "0.15"
env_logger = "0.11"
futures = "0.3"
log = "0.4"
owo-colors = "4"
reqwest = { version = "0.12", default-features = false, features = ["json", "stream"] }
reqwest-eventsource = "0.6"
secrecy = "0.10"
serde = { version = "1", features = ["derive"] }
serde_json = "1"
snowflake = "*"
specta = "*"
specta-typescript = "*"
stream-cancel = "0.8"
thiserror = "2"
tokio = { version = "1", features = ["rt-multi-thread", "macros", "sync", "net", "time"] }
tower-http = { version = "0.6", features = ["cors"] }
tower-layer = "0.3"
tower-service = "0.3"
tracing = "0.1"
tracing-subscriber = { version = "0.3", features = ["json", "chrono"] }
