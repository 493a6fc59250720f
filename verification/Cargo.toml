[package]
name = "cloud_storage_utilizer"
version = "0.1.0"
edition = "2021"
publish = false

[dependencies]
serde_json = "*"
reqwest = { version = "*", default-features = false, features = ["blocking"] }
crossterm = "*"
ratatui = "*"
walkdir = "*"
dotenvy = "*"
tracing = "*"
tracing-subscriber = { version = "*", features = ["env-filter"] }
tracing-appender = "*"
