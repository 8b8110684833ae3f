[package]
name = "lilypad"
version = "0.1.0"
edition = "2021"
publish = false

[dependencies]
rand = "=0.8.8"
directories = "6"
webbrowser = "=1.2.5"
egui = { version = "=0.31.1", default-features = false, features = ["default_fonts"] }
eframe = { version = "=0.31.1", default-features = false, features = ["glow", "x11"] }
