[package]
name = "gpu_life"
version = "0.1.0"
edition = "2021"
publish = false

[dependencies]
bytemuck = "1"
env_logger = "0.11"
pollster = "0.4"
rand = "0.9"
wgpu = "26"
winit = "0.30"
