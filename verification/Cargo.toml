[package]
name = "png_compress"
version = "0.1.0"
edition = "2021"
publish = false

[dependencies]
neon = "*"
oxipng = { version = "*", default-features = false }
