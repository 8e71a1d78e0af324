[package]
name = "td"
version = "0.1.0"
edition = "2021"
publish = false

[dependencies]
rand = "0.9"
bevy = { version = "0.17", default-features = false, features = ["std", "bevy_state", "bevy_log"] }
dirs-next = "2"
