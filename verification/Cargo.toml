[package]
name = "blueframe"
version = "0.1.0"
edition = "2021"
publish = false

[dependencies]
pollster = "*"
wgpu = "*"
winit = "*"
