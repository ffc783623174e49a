[package]
name = "bevy_elan"
version = "0.1.0"
edition = "2021"
publish = false

[dependencies]
bevy = { version = "=0.18.1", default-features = false, features = ["std", "bevy_window", "bevy_camera"] }
avian3d = { version = "=0.6.1", default-features = false, features = ["3d", "f32", "parry-f32"] }
serde = { version = "=1.0.229", features = ["derive"] }
