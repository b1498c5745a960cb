[package]
name = "archive_scraper"
version = "0.1.0"
edition = "2021"
publish = false

[dependencies]
anyhow = "=1.0.104"
clap = "=4.6.7"
image = "=0.25.10"
image_hasher = "=3.1.1"
itertools = "=0.15.0"
mime_guess = "=2.0.5"
rand = "=0.8.8"
ratelimit = "=0.9.1"
rayon = "=1.12.0"
reqwest = "=0.13.5"
scraper = "=0.29.0"
tokio = { version = "=1.54.1", features = ["macros", "rt-multi-thread", "sync", "time"] }
tracing = "=0.1.44"
tracing-appender = "=0.2.5"
tracing-subscriber = "=0.3.23"
walkdir = "=2.5.0"
