[package]
name = "egaku2d"
version = "0.1.0"
edition = "2021"
publish = false

[dependencies]
axgeom = "*"
gl = "0.14"
glutin = "0.24"
image = "0.23"
