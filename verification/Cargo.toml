[package]
name = "gpu_readback"
version = "0.1.0"
edition = "2021"
publish = false

[dependencies]
pollster = "0.3"
wgpu = "0.15"
winit = "0.28"
