[package]
name = "particles"
version = "0.1.0"
edition = "2021"
publish = false

[dependencies]
anyhow = "1"
bytemuck = { version = "1", features = ["derive"] }
cgmath = "0.18"
vulkano = "0.29"
vulkano-win = "0.29"
winit = "0.26"
