[package]
name = "bevy_ios_toolkit"
version = "0.5.0"
edition = "2021"
publish = false

[dependencies]
bevy = { version = "=0.19.1", default-features = false }
serde = { version = "=1.0.229", features = ["derive"] }
serde_json = "=1.0.154"
