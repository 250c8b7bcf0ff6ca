[package]
name = "runner"
version = "0.1.0"
edition = "2021"
publish = false

[dependencies]
clap = "4"
console = "0.15"
env_logger = "0.11"
failure = "0.1"
serde = { version = "1", features = ["derive"] }
serde_json = "1"
spurs = "0.9"
spurs-util = "0.3"
