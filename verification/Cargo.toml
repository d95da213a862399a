[package]
name = "froginity"
version = "0.1.0"
edition = "2021"
publish = false

[dependencies]
bytemuck = "1"
env_logger = "0.11"
pollster = "0.3"
rand = "0.8"
