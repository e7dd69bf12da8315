[package]
name = "twitch_chat_metrics"
version = "0.1.0"
edition = "2021"
publish = false

[dependencies]
tokio = { version = "*", features = ["sync", "rt"], default-features = false }
rand = "*"
serde = { version = "*", features = ["derive"] }
serde_json = "*"
twitch-irc = "*"
