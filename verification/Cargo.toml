[package]
name = "rebellion"
version = "0.1.0"
edition = "2021"
publish = false

[dependencies]
fastrand = "2"
serde = { version = "1", features = ["derive"] }
serde_json = "1"
rand = "0.8"
dirs = "5"
bevy = { version = "0.15", default-features = false, features = ["bevy_state"] }
