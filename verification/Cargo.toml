[package]
name = "ydnc_time"
version = "0.1.0"
edition = "2021"
publish = false

[dependencies]
anyhow = "1"
btleplug = "0.11"
chrono = { version = "0.4", features = ["serde"] }
crossterm = "0.27"
directories = "5"
humantime = "2"
itertools = "*"
lazy_static = "1"
ratatui = "0.23"
ron = "0.8"
serde = { version = "1", features = ["derive"] }
tokio = { version = "1", features = ["macros", "rt-multi-thread", "sync", "time"] }
tokio-stream = "0.1"
tracing = "0.1"
tracing-appender = "0.2"
tracing-subscriber = { version = "0.3", features = ["env-filter"] }
uuid = "1"
