[package]
name = "fxst"
version = "0.1.0"
edition = "2021"
publish = false

[dependencies]
image = { version = "0.25", default-features = false, features = ["png"] }
wgpu = "27"
winit = "0.31.0-beta.1"
egui = "0.33"
egui-wgpu = "0.33"
pollster = "0.4"
bytemuck = { version = "1", features = ["derive"] }
thiserror = "2"
