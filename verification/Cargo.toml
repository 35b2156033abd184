[package]
name = "dodge_cars"
version = "0.1.0"
edition = "2021"
publish = false

[dependencies]
rand = "0.8"
bevy = { version = "0.11", default-features = false }
