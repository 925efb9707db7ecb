[package]
name = "tinyrenderer"
version = "0.1.0"
edition = "2021"
publish = false

[dependencies]
tinytga = "*"
nom = "7"

[dev-dependencies]
glam = "*"
