[package]
name = "shadowbox"
version = "0.1.0"
edition = "2021"
publish = false

[dependencies]
dashmap = "*"
serde_yaml = "*"
chrono = "*"
anyhow = "*"
tokio = { version = "*", features = ["macros", "rt-multi-thread", "fs", "sync", "time"] }
tokio-stream = "*"
async-stream = "*"
serenity = "*"
poise = "*"
sea-orm = { version = "*", features = ["sqlx-sqlite", "runtime-tokio-rustls"] }
tracing = "*"
tracing-subscriber = "*"
