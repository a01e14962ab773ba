[package]
name = "rusty_taskboard"
version = "0.1.0"
edition = "2021"
publish = false

[dependencies]
eframe = { version = "0.23", default-features = false, features = ["glow", "persistence"] }
egui = { version = "0.23", default-features = false }
rand = "0.8"
serde = { version = "1", features = ["derive"] }
