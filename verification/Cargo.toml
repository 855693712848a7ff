[package]
name = "platformer"
version = "0.1.0"
edition = "2021"
publish = false

[dependencies]
bevy = { version = "=0.10.1", default-features = false }
bevy_rapier3d = { version = "=0.21.0", default-features = false, features = ["dim3", "async-collider"] }
