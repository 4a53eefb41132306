[package]
name = "hnscraper"
version = "0.1.0"
edition = "2021"
publish = false

[dependencies]
scraper = "*"
reqwest = { version = "0.12", default-features = false, features = ["cookies", "rustls-tls"] }
futures = "0.3"
async-trait = "0.1"
config = { version = "0.14", default-features = false }
dotenvy = "0.15"
serde = { version = "1", features = ["derive"] }
anyhow = "1"
tracing = "0.1"
