[package]
name = "organizer"
version = "0.1.0"
edition = "2021"
publish = false

[dependencies]
chrono = "=0.4.45"
iced = { version = "0.9", default-features = false, features = ["glow"] }
serde = { version = "=1.0.229", features = ["derive"] }
serde_json = "=1.0.154"
