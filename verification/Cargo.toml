[package]
name = "genesis"
version = "0.1.0"
edition = "2021"
publish = false

[dependencies]
freetype-rs = "=0.38.0"
glium = "=0.36.0"
glutin = "=0.32.3"
