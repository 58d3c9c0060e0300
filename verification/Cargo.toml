[package]
name = "zombie_shooter"
version = "0.1.0"
edition = "2021"
publish = false

[dependencies]
cgmath = "*"
genmesh = "*"
gfx = "*"
image = { version = "*", default-features = false, features = ["png"] }
json = "*"
specs = "*"
