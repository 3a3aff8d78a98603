[package]
name = "audio_conv"
version = "0.1.0"
edition = "2021"
publish = false

[dependencies]
anyhow = "1"
clap = "2"
futures = "0.3"
globset = "=0.4.20"
num_cpus = "=1.17.0"
regex = "=1.13.1"
serde = { version = "1", features = ["derive"] }
serde_yaml = "0.9"
tokio = { version = "1", features = ["rt", "fs", "io-util", "time", "macros"] }
tui = "0.19"
walkdir = "2"
