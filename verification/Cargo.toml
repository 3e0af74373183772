[package]
name = "chat_aggregates"
version = "0.1.0"
edition = "2021"
publish = false

[dependencies]
dotenv = "0.15"
redis = "0.27"
reqwest = "0.12"
tokio = { version = "1", features = ["full"] }
twitch_api = { version = "0.7", features = ["helix", "client", "reqwest"] }
twitch-irc = "*"
