[package]
name = "scanner_synth"
version = "0.1.0"
edition = "2021"
publish = false

[dependencies]
bevy = { version = "0.17", default-features = false }
bevy_rapier2d = { version = "0.32", default-features = false, features = ["dim2"] }
fundsp = "0.20"
rand = "0.9"
