[package]
name = "ram_monitor"
version = "0.1.0"
edition = "2021"
publish = false

[dependencies]
clap = { version = "=4.6.7", features = ["string"] }
signal-hook = "=0.3.18"
sysinfo = "=0.29.11"
