[package]
name = "campus_network_assistant"
version = "0.1.0"
edition = "2021"
publish = false

[dependencies]
anyhow = "1"
bytes = "1"
chrono = "0.4"
env_logger = "0.10"
futures-util = "0.3"
log = "0.4"
parking_lot = "0.12"
rand = "0.8"
reqwest = { version = "0.11", features = ["stream"] }
serde = { version = "1", features = ["derive"] }
serde_json = "1"
surge-ping = "0.8"
thirtyfour = "0.31"
tokio = { version = "1", features = ["full"] }
zip = { version = "0.6", default-features = false, features = ["deflate"] }
