[package]
name = "hibachi"
version = "0.1.0"
edition = "2021"
publish = false

[dependencies]
eframe = { version = "=0.30.0", default-features = false, features = ["default_fonts", "glow", "x11", "wayland"] }
egui = "=0.30.0"
egui_extras = "=0.30.0"
egui-modal = "=0.6.0"
tinyfiledialogs = "=3.9.1"
