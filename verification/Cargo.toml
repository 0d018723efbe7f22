[package]
name = "sienna"
version = "0.1.0"
edition = "2021"
publish = false

[dependencies]
kolor = "*"
imgref = "*"
rayon = "*"
image = { version = "*", default-features = false, features = ["png", "jpeg"] }
