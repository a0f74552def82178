[package]
name = "wgpu_webgl"
version = "0.1.0"
edition = "2021"
publish = false

[dependencies]
naga = { version = "*", features = ["wgsl-in", "glsl-out"] }
glow = "*"
