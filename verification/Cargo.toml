[package]
name = "kettle_kernel"
version = "0.1.0"
edition = "2021"
publish = false

[dependencies]
font8x8 = "*"
spin = "*"
conquer-once = "*"
