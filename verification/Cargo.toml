[package]
name = "wizardwars"
version = "0.1.0"
edition = "2021"
publish = false

[dependencies]
bevy = { version = "0.5", default-features = false }
bevy_networking_turbulence = { version = "0.3", default-features = false, features = ["use-udp"] }
bevy_rapier3d = { version = "0.10", default-features = false, features = ["dim3"] }
rand = "0.8"
serde = { version = "1", features = ["derive"] }
turbulence = "0.3"
