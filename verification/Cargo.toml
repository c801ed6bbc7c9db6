[package]
name = "discordbot"
version = "0.1.0"
edition = "2021"
publish = false

[dependencies]
url = "2"
serenity = "0.10"
songbird = "0.2"
lavalink-rs = "0.7"
tokio = { version = "1", features = ["macros", "rt-multi-thread", "signal"] }
tracing = "0.1"
tracing-appender = "0.2"
tracing-subscriber = "0.3"
