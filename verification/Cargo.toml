[package]
name = "dmgemu"
version = "0.1.0"
edition = "2021"

[dependencies]
sdl2 = "*"
