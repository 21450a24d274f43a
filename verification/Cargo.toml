[package]
name = "ragdoll_playground"
version = "0.1.0"
edition = "2021"
publish = false

[dependencies]
bevy = { version = "=0.17.3", default-features = false, features = ["std", "bevy_sprite", "bevy_window"] }
bevy_rapier2d = { version = "=0.32.0", default-features = false, features = ["dim2"] }
rand = "0.9"
