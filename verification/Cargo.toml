[package]
name = "rtun"
version = "0.1.0"
edition = "2021"
publish = false

[dependencies]
chrono = "0.4"
env_logger = "0.9"
log = "0.4"
rand = "0.8"
rmp-serde = "1"
serde = { version = "1", features = ["derive"] }
