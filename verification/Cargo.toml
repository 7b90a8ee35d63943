[package]
name = "meteoride"
version = "0.1.0"
edition = "2021"
publish = false

[dependencies]
actix-web = { version = "4", default-features = false, features = ["macros"] }
anyhow = "1"
dotenv = "0.15"
env_logger = "0.11"
geohash = "0.13"
log = "0.4"
redis = { version = "0.27", features = ["tokio-comp", "connection-manager"] }
reqwest = { version = "0.12", default-features = false, features = ["json", "rustls-tls"] }
serde = { version = "1", features = ["derive"] }
serde_json = "1"
serde_yaml = "0.9"
shellexpand = "3"
tokio = { version = "1", features = ["macros", "rt-multi-thread", "sync"] }
