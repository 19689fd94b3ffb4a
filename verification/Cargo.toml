[package]
name = "orbit_raster"
version = "0.1.0"
edition = "2021"
publish = false

[dependencies]
csgrs = { version = "=0.15.2", default-features = false, features = ["f64"] }
eframe = { version = "=0.36.2", default-features = false, features = ["glow", "x11", "default_fonts"] }
egui = "=0.36.2"
