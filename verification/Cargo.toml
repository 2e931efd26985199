[package]
name = "chord_method"
version = "0.1.0"
edition = "2021"
publish = false

[dependencies]
eframe = { version = "0.24", default-features = false, features = ["default_fonts", "glow", "x11"] }
egui_plot = "0.24"
