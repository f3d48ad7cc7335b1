[package]
name = "numcraft_world"
version = "0.1.0"
edition = "2021"
publish = false

[dependencies]
lz4_flex = "*"
postcard = { version = "1", features = ["alloc"] }
serde = { version = "1", features = ["derive"] }
nalgebra = "*"
fastnoise-lite = "*"
libm = "*"
