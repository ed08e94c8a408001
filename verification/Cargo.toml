[package]
name = "venue_flow"
version = "0.2.0"
edition = "2021"
publish = false

[dependencies]
garde = { version = "=0.23.0", features = ["full"] }
chrono = "=0.4.45"
derive_builder = "=0.20.2"
uuid = { version = "=1.29.1", features = ["v4", "serde"] }
serde = { version = "=1.0.229", features = ["derive"] }
serde_json = "=1.0.154"
thiserror = "=2.0.21"
anyhow = "=1.0.104"
dotenv = "=0.15.0"
log = "=0.4.35"
tracing = "=0.1.44"
tokio = { version = "=1.54.1", features = ["rt-multi-thread", "macros", "time", "sync"] }
async-trait = "=0.1.92"
deadpool-redis = "*"
tracing-subscriber = { version = "*", features = ["env-filter", "json"] }
tracing-appender = "*"
once_cell = "*"
