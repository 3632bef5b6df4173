[package]
name = "notify_gateway"
version = "0.1.0"
edition = "2021"
publish = false

[dependencies]
actix-web = "4"
actix-multipart = "0.7"
env_logger = "0.11"
futures = "0.3"
ipnet = { version = "2", features = ["serde"] }
reqwest = { version = "0.12", features = ["json", "multipart"] }
serde = { version = "1", features = ["derive"] }
toml = "0.8"
