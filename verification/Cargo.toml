[package]
name = "rawaccel_convert_gui"
version = "0.1.0"
edition = "2021"
publish = false

[dependencies]
egui = { version = "0.28", default-features = false }
egui_plot = { version = "0.28", default-features = false }
env_logger = { version = "0.11", default-features = false }
log = "0.4"
serde = { version = "1", features = ["derive"] }
