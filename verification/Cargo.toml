[package]
name = "crawlers"
version = "0.1.0"
edition = "2021"
publish = false

[dependencies]
anyhow = "1"
chrono = "0.4"
crossbeam = "0.8"
dotenv = "0.15"
log = "0.4"
redis = "*"
reqwest = { version = "0.12", default-features = false, features = ["json", "brotli", "rustls-tls"] }
scraper = "*"
serde = { version = "1", features = ["derive"] }
serde_json = "1"
simple_logger = "*"
tokio = { version = "1", features = ["full"] }
tokio-scoped = "*"
uuid = { version = "1", features = ["v4"] }
