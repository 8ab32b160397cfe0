[package]
name = "sphere_scene"
version = "0.1.0"
edition = "2021"

[dependencies]
futures = "0.3"
ultraviolet = "0.4"
wgpu = "0.5"
winit = "0.22"
