[package]
name = "wgpu-executor"
version = "0.1.0"
edition = "2021"
publish = false

[dependencies]
anyhow = "1"
bytemuck = "1"
futures = "0.3"
glam = "0.29"
vello = "0.6"
web-sys = { version = "0.3", features = ["HtmlCanvasElement"] }
wgpu = "26"
winit = "0.30"
