[package]
name = "outage_monitor"
version = "0.1.0"
edition = "2021"
publish = false

[dependencies]
chrono = "0.4"
scraper = "*"
reqwest = "*"
sqlite = "*"
telegram-bot = "*"
tokio = { version = "1", features = ["full"] }
tokio-cron-scheduler = "*"
tokio-stream = "*"
