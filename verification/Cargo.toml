[package]
name = "drawing_diff"
version = "0.1.0"
edition = "2021"
publish = false

[dependencies]
image = "=0.25.10"
rayon = "=1.12.0"
pdfium-render = "=0.9.4"
serde = { version = "=1.0.229", features = ["derive"] }
eframe = { version = "=0.36.2", default-features = false, features = ["persistence", "x11"] }
egui = "=0.36.2"
