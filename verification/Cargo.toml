[package]
name = "gameloop"
version = "0.1.0"
edition = "2021"
publish = false

[dependencies]
winit = { version = "0.28", default-features = false, features = ["x11"] }
winapi = { version = "0.3", features = ["mmsystem", "timeapi"] }
