[package]
name = "oxidrop"
version = "0.1.0"
edition = "2021"
publish = false

[dependencies]
hostname = "=0.4.2"
anyhow = "=1.0.104"
clap = { version = "=4.5.61", features = ["derive"] }
crossterm = { version = "=0.28.1", features = ["event-stream"] }
env_logger = "=0.11.11"
log = "=0.4.34"
pin-project = "=1.1.13"
ratatui = "=0.29.0"
scopeguard = "=1.2.0"
thiserror = "=2.0.21"
tokio = { version = "=1.53.2", features = ["full"] }
tokio-stream = { version = "=0.1.19", features = ["sync", "time"] }
