[package]
name = "ytgrab"
version = "0.1.0"
edition = "2021"
publish = false

[dependencies]
serde_json = "*"
serde = { version = "*", features = ["derive"] }
eframe = { version = "*", default-features = false, features = ["glow", "x11"] }
dirs = "*"
env_logger = "*"
