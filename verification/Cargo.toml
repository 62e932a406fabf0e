[package]
name = "audio_visualizer"
version = "0.1.0"
edition = "2021"
publish = false

[dependencies]
anyhow = "1"
bytemuck = { version = "1", features = ["derive"] }
egui = "0.27"
glam = { version = "0.27", features = ["bytemuck"] }
rodio = "0.17"
rustfft = "6"
tracing = "0.1"
tracing-subscriber = { version = "0.3", features = ["env-filter"] }
type-map = "0.5"
