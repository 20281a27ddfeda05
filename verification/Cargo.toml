[package]
name = "dev_dashboard"
version = "0.1.0"
edition = "2021"
publish = false

[dependencies]
uuid = { version = "1", features = ["v4"] }
chrono = "0.4"
egui = "=0.35.0"
eframe = { version = "=0.35.0", default-features = false, features = ["default_fonts", "glow", "x11"] }
tracing = "0.1"
