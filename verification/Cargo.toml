[package]
name = "termux_world"
version = "0.1.0"
edition = "2021"
publish = false

[dependencies]
image = { version = "0.25", default-features = false, features = ["png"] }
portable-pty = "0.8.1"
bevy = { version = "0.16", default-features = false, features = ["bevy_pbr", "bevy_window"] }
bevy_rapier3d = { version = "0.30", default-features = false, features = ["dim3"] }
