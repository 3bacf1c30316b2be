[package]
name = "dendynes"
version = "0.1.0"
edition = "2021"
publish = false

[dependencies]
fern = "*"
image = "*"
log = "*"
piston = "*"
piston2d-graphics = "*"
piston_window = "*"
