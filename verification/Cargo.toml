[package]
name = "folder_creator"
version = "0.1.0"
edition = "2021"
publish = false

[dependencies]
chrono = "=0.4.45"
eframe = { version = "=0.36.2", default-features = false, features = ["glow", "x11"] }
