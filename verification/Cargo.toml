[package]
name = "nmeagc"
version = "0.1.0"
edition = "2021"
publish = false

[dependencies]
nmea = "*"
circular-buffer = "*"
ratatui = "*"
crossterm = "*"
color-eyre = "*"
serialport = { version = "*", default-features = false }
chrono = "*"
strum = { version = "*", features = ["derive"] }
clap = { version = "*", features = ["derive"] }
