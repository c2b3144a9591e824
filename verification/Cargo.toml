[package]
name = "gatcha_machine"
version = "0.1.0"
edition = "2021"
publish = false

[dependencies]
rand = "=0.8.8"
clap = "=4.4.18"
eframe = { version = "=0.22.0", default-features = false, features = ["glow", "default_fonts"] }
egui = "=0.22.0"
font-kit = "=0.11.0"
