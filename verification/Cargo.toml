[package]
name = "door_guard"
version = "0.1.0"
edition = "2021"
publish = false

[dependencies]
anyhow = "1"
battery = "0.7"
chrono = "0.4"
eframe = { version = "0.32", default-features = false, features = ["default_fonts", "glow", "x11"] }
egui-notify = "0.20"
serialport = { version = "4", default-features = false }
