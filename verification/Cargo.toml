[package]
name = "spooler"
version = "0.1.0"
edition = "2021"
publish = false

[dependencies]
anyhow = "1"
bevy = { version = "0.11", default-features = false, features = ["bevy_asset"] }
proc-macro2 = "=1.0.107"
quote = "=1.0.47"
serde = { version = "=1.0.229", features = ["derive"] }
serde_json = "=1.0.154"
syn = "=2.0.119"
tokio = { version = "=1.54.1", features = ["rt", "sync", "time"] }
url = { version = "=2.5.8", features = ["serde"] }
