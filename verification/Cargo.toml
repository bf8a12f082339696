[package]
name = "harvesting"
version = "0.1.0"
edition = "2021"
publish = false

[dependencies]
regex = "1"
sha2 = "0.10"
url = "2"
chrono = "0.4"
unicode-normalization = "0.1"
unicode_categories = "0.1"
serde = { version = "1", features = ["derive"] }
quick-xml = { version = "*", features = ["serialize"] }
reqwest = "0.12"
tokio = { version = "1", features = ["full"] }
tokio-postgres = { version = "0.7", features = ["with-chrono-0_4"] }
futures = "0.3"
axum = "0.7"
bb8 = "*"
bb8-postgres = "*"
tracing = "0.1"
tracing-subscriber = { version = "0.3", features = ["env-filter"] }
