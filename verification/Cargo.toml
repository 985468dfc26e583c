[package]
name = "bevy_state_ui"
version = "0.8.0"
edition = "2021"
publish = false

[dependencies]
bevy = { version = "=0.17.3", default-features = false, features = ["std", "bevy_log"] }
