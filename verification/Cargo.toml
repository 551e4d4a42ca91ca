[package]
name = "sbtui"
version = "0.1.0"
edition = "2021"
publish = false

[dependencies]
ratatui = "=0.30.2"
crossterm = { version = "0.29", features = ["event-stream"] }
futures-util = "=0.3.34"
sha2 = "=0.11.1"
base64 = "=0.23.1"
serde = { version = "=1.0.229", features = ["derive"] }
serde_json = "=1.0.154"
anyhow = "=1.0.104"
reqwest = { version = "=0.13.5", default-features = false, features = ["json"] }
tokio = { version = "=1.54.1", features = ["full"] }
zip = { version = "=9.2.2", default-features = false, features = ["deflate"] }
clap = { version = "=4.6.7", features = ["derive"] }
