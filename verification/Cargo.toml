[package]
name = "raytracer"
version = "0.1.0"
edition = "2021"
publish = false

[dependencies]
bytemuck = { version = "1", features = ["derive"] }
fastrand = "2"
gif = "0.13"
image = { version = "0.24", default-features = false }
pollster = "0.3"
rayon = "1"
wgpu = "0.16"
