[package]
name = "vulkan_bootstrap"
version = "0.1.0"
edition = "2021"
publish = false

[dependencies]
ash = "0.38"
ash-window = "0.13"
log = "0.4"
pretty_env_logger = "0.5"
winit = "0.30"
