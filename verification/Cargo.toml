[package]
name = "pace_ping"
version = "0.1.0"
edition = "2021"
publish = false

[dependencies]
serenity = "0.11"
tokio = { version = "1", features = ["rt", "sync", "time"] }
