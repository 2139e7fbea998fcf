[package]
name = "panorama"
version = "0.1.0"
edition = "2021"
publish = false

[dependencies]
image = { version = "=0.25.10", default-features = false, features = ["png"] }
zip = { version = "=2.6.1", default-features = false, features = ["deflate"] }
glam = "=0.29.3"
glow = "=0.16.0"
sdl2 = "=0.37.0"
argh = "=0.1.19"
