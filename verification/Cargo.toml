[package]
name = "action_rpg"
version = "0.1.0"
edition = "2021"
publish = false

[dependencies]
rand = "=0.8.8"
bevy = { version = "0.6", default-features = false }
gdnative = "0.10"
gdrust = "=0.1.0"
