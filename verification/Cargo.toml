[package]
name = "vulkan_playground"
version = "0.1.0"
edition = "2021"
publish = false

[dependencies]
vulkano = "*"
log = "*"
pretty_env_logger = "*"
image = "*"
