[package]
name = "dirwatch"
version = "0.1.0"
edition = "2021"
publish = false

[dependencies]
notify = "=6.1.1"
open = "=4.2.0"
egui = "=0.22.0"
eframe = { version = "=0.22.0", default-features = false, features = ["default_fonts", "glow"] }
egui_extras = { version = "=0.22.0", default-features = false, features = ["image"] }
image = { version = "=0.24.9", default-features = false, features = ["png"] }
