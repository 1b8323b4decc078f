[package]
name = "frame_surface"
version = "0.1.0"
edition = "2021"
publish = false

[dependencies]
pollster = "0.4"
wgpu = "25"
winit = "0.30"
