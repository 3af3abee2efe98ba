[package]
name = "dissolve"
version = "0.1.0"
edition = "2021"
publish = false

[dependencies]
bytemuck = { version = "1", features = ["derive"] }
pollster = "0.3"
winit = { version = "0.29", default-features = false, features = ["x11", "rwh_06"] }
