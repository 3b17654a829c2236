[package]
name = "ear_bridge"
version = "0.1.0"
edition = "2021"
publish = false

[dependencies]
tokio = { version = "=1.53.2", features = ["sync", "rt", "macros"] }
egui = { version = "=0.36.2", default-features = false }
eframe = { version = "=0.36.2", default-features = false, features = ["glow", "x11"] }
