[package]
name = "voicefox"
version = "0.1.0"
edition = "2021"
publish = false

[dependencies]
unicode-width = "=0.2.3"
clap = { version = "=4.6.7", features = ["derive"] }
serde = { version = "=1.0.229", features = ["derive"] }
serde_json = "=1.0.154"
dirs = "=6.0.0"
image = { version = "=0.25.10", default-features = false, features = ["png", "jpeg"] }
ratatui = "0.30"
crossterm = "0.29"
