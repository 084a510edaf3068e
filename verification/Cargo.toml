[package]
name = "lightshark"
version = "0.1.0"
edition = "2021"
publish = false

[dependencies]
rusqlite = "*"
etherparse = "*"
chrono = "*"
tokio = { version = "*", features = ["full"] }
axum = "*"
clap = { version = "*", features = ["derive"] }
ctrlc = "*"
serde = { version = "*", features = ["derive"] }
serde_json = "*"
serde_yaml = "*"
tracing = "*"
tracing-subscriber = { version = "*", features = ["env-filter"] }
pcap = "*"
