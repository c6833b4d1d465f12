[package]
name = "mavlink_debugger"
version = "0.1.0"
edition = "2021"
publish = false

[dependencies]
chrono = "*"
clap = { version = "*", features = ["derive"] }
color-eyre = "*"
crossterm = "*"
json5 = "*"
mavlink = "*"
ratatui = "*"
serde_json = "*"
strum = { version = "*", features = ["derive"] }
