[package]
name = "swr_analyzer"
version = "0.1.0"
edition = "2021"
publish = false

[dependencies]
rand = "0.8"
async-channel = "2"
clap = { version = "4", features = ["derive"] }
log = "0.4"
rusb = "0.9"
thiserror = "1"
