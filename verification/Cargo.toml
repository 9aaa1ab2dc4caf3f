[package]
name = "my_graphics"
version = "0.1.0"
edition = "2021"
publish = false

[dependencies]
winit = { version = "=0.29.15", default-features = false, features = ["rwh_06", "x11"] }
crossbeam-channel = "0.5"
parking_lot = "0.12"
pollster = "0.3"
env_logger = { version = "0.11", default-features = false }
bytemuck = { version = "1", features = ["derive"] }
