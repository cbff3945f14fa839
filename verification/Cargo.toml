[package]
name = "raybaby"
version = "0.1.0"
edition = "2021"
publish = false

[dependencies]
rand = "0.8"
glam = { version = "0.24", features = ["serde"] }
serde = { version = "1", features = ["derive"] }
ron = "0.8"
clap = { version = "4", features = ["derive"] }
wgpu = "0.16"
winit = "0.28"
egui = "0.22"
egui-wgpu = "0.22"
egui-winit = { version = "0.22", default-features = false }
env_logger = "0.10"
pollster = "0.3"
bytemuck = "1"
gltf = "1"

[dev-dependencies]
encase = { version = "0.6", features = ["glam"] }
