[package]
name = "kirkkaus"
version = "0.1.0"
edition = "2021"
publish = false

[dependencies]
eframe = { version = "=0.33.3", default-features = false, features = ["default_fonts", "glow", "x11"] }
egui = { version = "=0.33.3", default-features = false }
egui_extras = { version = "=0.33.3", default-features = false, features = ["file", "image"] }
env_logger = "=0.11.11"
image = { version = "=0.25.10", default-features = false, features = ["jpeg"] }
