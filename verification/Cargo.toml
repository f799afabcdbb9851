[package]
name = "pixels"
version = "0.1.0"
edition = "2021"
publish = false

[dependencies]
wgpu = "0.20"
pollster = "*"
ultraviolet = "*"
thiserror = "*"
