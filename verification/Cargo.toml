[package]
name = "gbcore"
version = "0.1.0"
edition = "2021"
publish = false

[dependencies]
tokio = { version = "1", features = ["rt-multi-thread", "macros", "sync", "time", "fs"] }
clap = { version = "4", features = ["derive"] }
log = "0.4"
env_logger = "0.11"
