[package]
name = "render_core"
version = "0.1.0"
edition = "2021"
publish = false

[dependencies]
bytemuck = "=1.25.2"
nannou = "=0.17.1"

[dev-dependencies]
crevice = "=0.20.1"
glam = "=0.16.0"
mint = "=0.5.9"
wgpu-types = "=0.9.3"
