[package]
name = "cam_core"
version = "0.1.0"
edition = "2021"
publish = false

[dependencies]
eframe = { version = "0.31", default-features = false, features = ["default_fonts", "glow", "x11"] }
egui_extras = { version = "0.31", default-features = false }
resvg = "0.45"
rfd = { version = "0.15", default-features = false, features = ["xdg-portal", "tokio"] }
usvg = "0.45"
