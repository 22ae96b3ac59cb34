[package]
name = "bobo-ro-ctd"
version = "0.1.0"
edition = "2021"
publish = false

[dependencies]
serde = { version = "1", features = ["derive"] }
toml = "*"
eframe = { version = "0.33.3", default-features = false, features = ["glow", "default_fonts", "x11"] }
egui = "0.33.3"
scrap = "0.5"
opencv = "0.98.1"
