[package]
name = "mythic_editor"
version = "0.1.0"
edition = "2021"
publish = false

[dependencies]
eframe = { version = "=0.31.1", default-features = false, features = ["default_fonts", "glow", "x11"] }
egui = { version = "=0.31.1", default-features = false }
strum = { version = "0.26", features = ["derive"] }
