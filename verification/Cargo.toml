[package]
name = "rgb_img"
version = "0.1.0"
edition = "2021"
publish = false

[dependencies]
minivec = "*"
