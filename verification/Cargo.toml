[package]
name = "planet_shape"
version = "0.1.0"
edition = "2021"
publish = false

[dependencies]
serde = { version = "*", features = ["derive"] }
ron = "*"
bytemuck = { version = "*", features = ["derive"] }
