[package]
name = "falling_sand"
version = "0.1.0"
edition = "2021"
publish = false

[dependencies]
bytemuck = { version = "1", features = ["derive"] }
wgpu = "27"
winit = "0.30"
pollster = "0.4"
