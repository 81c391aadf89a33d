[package]
name = "wgpu_experiments"
version = "0.1.0"
edition = "2021"
publish = false

[dependencies]
image = "0.24"
wgpu = "0.16"
winit = "0.28"
winit_input_helper = "0.14"
nalgebra = "0.32"
bytemuck = { version = "1", features = ["derive"] }
log = "0.4"
env_logger = "0.10"
color-eyre = "0.6"
