[package]
name = "evse_server"
version = "0.1.0"
edition = "2021"
publish = false

[dependencies]
anyhow = "1"
chrono = { version = "=0.4.45", features = ["serde"] }
clap = { version = "4", features = ["derive"] }
env_logger = "0.11"
futures = "0.3"
log = "0.4"
ocpp_rs = "=0.4.1"
rusqlite = { version = "=0.41.1", features = ["bundled", "chrono"] }
serde = { version = "1", features = ["derive"] }
serde_json = "=1.0.154"
thiserror = "2"
tokio = { version = "1", features = ["macros", "net", "rt-multi-thread", "signal"] }
tokio-tungstenite = "=0.30.0"
