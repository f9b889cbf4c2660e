[package]
name = "log_sink"
version = "0.1.0"
edition = "2021"
publish = false

[dependencies]
axum = "0.7"
env_logger = "0.11"
log = "0.4"
serde = { version = "1", features = ["derive"] }
serde_json = "1"
tokio = { version = "1", features = ["macros", "net", "rt-multi-thread", "signal", "sync"] }
