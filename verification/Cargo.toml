[package]
name = "command_router"
version = "0.1.0"
edition = "2021"
publish = false

[dependencies]
chrono = { version = "=0.4.45", default-features = false, features = ["clock"] }
log = "=0.4.34"
serde = "1"
serde_json = "1"
tokio = { version = "=0.2.25", features = ["stream"] }
twitchchat = "=0.10.3"
