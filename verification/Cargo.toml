[package]
name = "palette"
version = "0.1.0"
edition = "2021"
publish = false

[dependencies]
approx = "0.5"
bytemuck = "1"
rand = "0.8"
