[package]
name = "character_control"
version = "0.1.0"
edition = "2021"
publish = false

[dependencies]
bevy = { version = "=0.12.1", default-features = false }
bevy_rapier3d = { version = "=0.23.0", default-features = false, features = ["dim3", "headless"] }
