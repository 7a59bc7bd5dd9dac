[package]
name = "bokeh_creator"
version = "0.1.0"
edition = "2021"
publish = false

[dependencies]
glam = "*"
image = { version = "*", default-features = false }
image-ndarray = "*"
libnoise = "*"
ndarray = "*"
num-traits = "*"
