[package]
name = "xenon"
version = "0.1.0"
edition = "2021"
publish = false

[dependencies]
lyon = "1.0"
fastrand = "1.8"
winit = "0.27"
wgpu = "0.14"
bytemuck = { version = "1", features = ["derive"] }
pollster = "0.2"
log = "0.4"
image = { version = "0.24", default-features = false }
euclid = "0.22"
raw-window-handle = "0.5"
