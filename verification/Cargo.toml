[package]
name = "cropkit"
version = "0.1.0"
edition = "2021"
publish = false

[dependencies]
eframe = { version = "*", default-features = false, features = ["glow", "default_fonts", "x11", "wayland"] }
image = { version = "*", default-features = false, features = ["png", "jpeg", "bmp"] }
rfd = "*"
