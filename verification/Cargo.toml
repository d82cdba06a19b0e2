[package]
name = "raytracer"
version = "0.1.0"
edition = "2021"
publish = false

[dependencies]
bytemuck = "1"
cgmath = "0.18"
futures = "0.3"
image = "0.23"
sdl2 = { version = "0.36", features = ["raw-window-handle"] }
wgpu = "0.15"
wgpu_glyph = "0.19"
