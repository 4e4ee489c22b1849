[package]
name = "lab_world"
version = "0.1.0"
edition = "2021"
publish = false

[dependencies]
rand = "=0.7.3"
bevy = { version = "=0.2.1", default-features = false }
notify = "=5.0.0-pre.2"
