[package]
name = "tmgui"
version = "0.1.0"
edition = "2021"
publish = false

[dependencies]
chrono = "0.4"
eframe = { version = "0.32", default-features = false, features = ["default_fonts", "glow", "persistence", "x11"] }
egui_extras = { version = "0.32", default-features = false }
log = "0.4"
open = "5"
rand = "0.9"
tmapi = "*"
tokio = { version = "1", features = ["rt-multi-thread"] }
