[package]
name = "triangle"
version = "0.1.0"
edition = "2021"
publish = false

[dependencies]
bytemuck = { version = "1", features = ["derive"] }
vulkano = "0.30"
vulkano-shaders = "0.30"
vulkano-win = "0.30"
winit = "0.26"
