[package]
name = "optimizer_core"
version = "0.1.0"
edition = "2021"
publish = false

[dependencies]
eframe = { version = "=0.24.1", default-features = false, features = ["glow", "default_fonts", "x11"] }
webbrowser = "=0.8.15"
