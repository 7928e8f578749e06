[package]
name = "viewport_core"
version = "0.1.0"
edition = "2021"
publish = false

[dependencies]
anyhow = "=1.0.104"
cgmath = "=0.18.0"
egui = "=0.22.0"
egui-winit = { version = "=0.22.0", default-features = false }
env_logger = "=0.10.2"
log = "=0.4.34"
winit = "=0.28.7"
