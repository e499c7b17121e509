[package]
name = "fps_controller"
version = "0.1.0"
edition = "2021"
publish = false

[dependencies]
bevy = { version = "=0.6.1", default-features = false, features = ["render"] }
heron = { version = "=1.2.0", features = ["3d"] }
darling = "=0.13.4"
