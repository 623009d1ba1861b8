[package]
name = "curve_sampler"
version = "0.1.0"
edition = "2021"
publish = false

[dependencies]
eframe = { version = "0.31", default-features = false, features = ["default_fonts", "glow", "x11"] }
egui = "0.31"
egui_plot = "0.31"
num-complex = "0.4"
tracing = "0.1"
tracing-subscriber = "0.3"
