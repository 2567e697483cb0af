[package]
name = "solid_modeling"
version = "0.1.0"
edition = "2021"
publish = false

[dependencies]
glam = "0.29"
winit = "0.30"
pollster = "0.4"
env_logger = "0.11"

[dev-dependencies]
nom = "7"
