[package]
name = "twitch_tts"
version = "0.1.0"
edition = "2021"
publish = false

[dependencies]
serde = { version = "1", features = ["derive"] }
serde_json = "1"
dirs = "5"
crossterm = "0.28"
ratatui = "0.29"
