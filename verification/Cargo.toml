[package]
name = "nimble_gui"
version = "0.1.0"
edition = "2021"
publish = false

[dependencies]
eframe = { version = "*", default-features = false, features = ["glow", "x11", "default_fonts"] }
rfd = "*"
ureq = { version = "*", default-features = false }
