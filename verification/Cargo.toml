[package]
name = "bevy_vrm1"
version = "0.1.0"
edition = "2021"
publish = false

[dependencies]
bevy = { version = "=0.17.3", default-features = false, features = ["std", "bevy_color", "bevy_log", "bevy_camera", "serialize"] }
serde = { version = "=1.0.229", features = ["derive"] }
