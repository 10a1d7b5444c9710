[package]
name = "rsmixer"
version = "0.1.0"
edition = "2021"
publish = false

[dependencies]
anyhow = "1"
async-trait = "*"
crossbeam-channel = "*"
crossterm = { version = "*", features = ["event-stream"] }
libpulse-binding = "2"
tokio = { version = "1", features = ["rt-multi-thread", "sync", "time", "macros"] }
tokio-stream = "*"
