[package]
name = "terrapipe"
version = "0.1.0"
edition = "2021"
publish = false

[dependencies]
bytemuck = "1"
glam = { version = "0.29", features = ["bytemuck"] }
noise = "=0.8.2"
rand = "=0.8.8"
