[package]
name = "vk_bootstrap"
version = "0.1.0"
edition = "2021"
publish = false

[dependencies]
anyhow = "=1.0.104"
ash = "=0.37.3"
ash-window = "0.12"
raw-window-handle = "0.5"
winit = "=0.28.7"
