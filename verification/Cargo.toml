[package]
name = "clothes_search"
version = "0.1.0"
edition = "2021"
publish = false

[dependencies]
futures = "*"
meilisearch-sdk = "*"
serde = { version = "*", features = ["derive"] }
serde_json = "*"
