[package]
name = "eat_the_rich_core"
version = "0.1.0"
edition = "2021"
publish = false

[dependencies]
arrow = { version = "=60.1.0", default-features = false }
axum = { version = "=0.8.9", features = ["ws"] }
candle-core = "=0.11.1"
dotenvy = "=0.15.7"
duckdb = { version = "=1.20000.1", default-features = false }
reqwest = { version = "=0.13.5", default-features = false }
ringbuf = "=0.4.8"
serde = { version = "=1.0.229", features = ["derive"] }
serde_json = "=1.0.154"
tokio = { version = "=1.54.1", features = ["full"] }
