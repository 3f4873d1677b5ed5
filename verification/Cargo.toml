[package]
name = "debug-assistant"
version = "0.1.0"
edition = "2021"
publish = false

[dependencies]
ihex = "3"
unicode-width = "0.2"
chrono = "0.4"
anyhow = "1"
ratatui = "0.29"
crossterm = "0.28"
serialport = { version = "4", default-features = false }
probe-rs = { version = "0.25", default-features = false }
arboard = { version = "3", default-features = false }
