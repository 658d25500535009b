[package]
name = "biblia_egui"
version = "0.1.0"
edition = "2021"
publish = false

[dependencies]
unicode-normalization = "=0.1.26"
rusqlite = "=0.41.1"
eframe = { version = "=0.37.0", default-features = false, features = ["default_fonts", "glow", "x11"] }
log = "=0.4.35"
android_logger = "=0.15.1"
winit = { version = "=0.30.13", default-features = false }
