[package]
name = "reconcrab"
version = "1.0.0"
edition = "2021"
publish = false

[dependencies]
clap = "4"
rand = "0.9"
reqwest = { version = "0.12", default-features = false }
sysinfo = "*"
tokio = { version = "1", features = ["rt-multi-thread", "macros", "fs", "io-util", "sync", "time"] }
url = "2"
