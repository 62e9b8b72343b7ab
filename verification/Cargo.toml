[package]
name = "nadzu"
version = "0.1.0"
edition = "2021"
publish = false

[dependencies]
chrono = { version = "0.4", default-features = false, features = ["std", "clock"] }
serde = { version = "1", features = ["derive"] }
serde_json = "1"
regex = "1"
uuid = { version = "1", features = ["v4", "serde"] }
tokio = { version = "1", features = ["full"] }
reqwest = { version = "0.12", default-features = false, features = ["json", "stream"] }
axum = "0.8"
dashmap = "6"
futures = "0.3"
async-trait = "0.1"
tokio-stream = "0.1"
minijinja = "2"
tracing = "0.1"
tracing-subscriber = { version = "0.3", features = ["env-filter", "fmt"] }
tracing-appender = "0.2"
tower-http = { version = "0.6", features = ["trace"] }
metrics-exporter-prometheus = { version = "0.16", default-features = false }
