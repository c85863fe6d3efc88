[package]
name = "quic_game"
version = "0.1.0"
edition = "2021"
publish = false

[dependencies]
bevy = { version = "=0.12.1", default-features = false }
bevy_quinnet = "=0.6.0"
serde = { version = "=1.0.229", features = ["derive"] }
