[package]
name = "tuixel"
version = "0.1.0"
edition = "2021"
publish = false

[dependencies]
chrono = "0.4"
cron-parser = "*"
cron-descriptor = "*"
unicode-width = "*"
ratatui = "0.29"
tui-textarea = "0.7"
tui-big-text = "0.7"
color-eyre = "0.6"
tokio = { version = "1", features = ["sync"] }
tracing = "0.1"
serde = { version = "1", features = ["derive"] }
strum = { version = "0.26", features = ["derive"] }
