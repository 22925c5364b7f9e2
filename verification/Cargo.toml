[package]
name = "av1converter"
version = "0.1.0"
edition = "2021"
publish = false

[dependencies]
config = "*"
crossterm = "0.28"
dirs = "*"
ffmpeg-next = "*"
nix = { version = "0.29", features = ["fs"] }
ratatui = "0.29"
regex = "1"
serde = { version = "1", features = ["derive"] }
serde_json = "1"
toml = "0.8"
tracing = "0.1"
tracing-appender = "0.2"
tracing-subscriber = { version = "0.3", features = ["env-filter"] }
