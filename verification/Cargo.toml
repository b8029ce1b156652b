[package]
name = "airsync_receiver_core"
version = "0.1.0"
edition = "2021"
publish = false

[dependencies]
anyhow = "1"
axum = "0.7"
hostname = "0.4"
hound = "3.5"
serde = { version = "1", features = ["derive"] }
serde_json = "1"
tempfile = "3"
tokio = { version = "1", features = ["macros", "rt-multi-thread", "net", "time", "signal"] }
uuid = { version = "1", features = ["v4"] }
