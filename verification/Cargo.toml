[package]
name = "meters"
version = "0.1.0"
edition = "2021"
publish = false

[dependencies]
best = "*"
direction = "*"
grid_2d = "*"
prototty = "*"
rand = "*"
shadowcast = "*"
