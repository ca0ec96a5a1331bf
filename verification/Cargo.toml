[package]
name = "bronzeflow"
version = "0.1.0"
edition = "2021"
publish = false

[dependencies]
cron = "*"
chrono = "*"
anyhow = "*"
futures = "*"
tokio = { version = "*", features = ["rt-multi-thread", "sync", "time", "macros"] }
