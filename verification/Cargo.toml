[package]
name = "citadel"
version = "0.1.0"
edition = "2021"
publish = false

[dependencies]
anyhow = "=1.0.104"
axum = "0.8"
axum-server = { version = "=0.7.3", features = ["tls-rustls"] }
chrono = { version = "=0.4.45", features = ["serde"] }
ciborium = "=0.2.2"
clap = { version = "=4.6.7", features = ["derive", "env"] }
clap_complete = "=4.6.11"
crossterm = "=0.28.1"
ratatui = "=0.29.0"
rcgen = "=0.13.2"
rusqlite = { version = "=0.32.1", features = ["bundled"] }
rustls = "=0.23.46"
rustls-pemfile = "=2.2.0"
serde = { version = "=1.0.229", features = ["derive"] }
serde_json = "=1.0.154"
tokio = { version = "=1.54.1", features = ["full"] }
tracing = "=0.1.44"
tracing-subscriber = { version = "=0.3.23", features = ["env-filter"] }
ureq = "=2.12.1"
uuid = { version = "=1.29.0", features = ["v4"] }
