[package]
name = "coord_picker"
version = "0.1.0"
edition = "2021"
publish = false

[dependencies]
clipboard = "=0.5.0"
eframe = { version = "=0.23.0", default-features = false, features = ["default_fonts", "glow", "x11"] }
egui = "=0.23.0"
