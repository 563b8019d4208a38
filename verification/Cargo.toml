[package]
name = "chip8"
version = "0.1.0"
edition = "2021"
publish = false

[dependencies]
rand = "=0.8.8"
thiserror = "=1.0.69"
anyhow = "=1.0.104"
log = "=0.4.34"
env_logger = "=0.10.2"
pollster = "=0.3.0"
wgpu = "=0.15.1"
winit = "=0.28.7"
glfw = { version = "=0.51.0", default-features = false }
gl = "=0.14.0"
