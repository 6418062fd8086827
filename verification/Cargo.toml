[package]
name = "tangello"
version = "0.1.0"
edition = "2021"
publish = false

[dependencies]
eframe = "=0.18.0"
egui_extras = { version = "=0.18.0", features = ["image"] }
mpdrs = "=0.1.0"
confy = "=0.4.0"
dirs = "=4.0.0"
lofty = "=0.7.3"
notify-rust = "=4.19.0"
serde = { version = "=1.0.229", features = ["derive"] }
tracing = "=0.1.44"
