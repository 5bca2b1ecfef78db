[package]
name = "c64"
version = "0.1.0"
edition = "2021"
publish = false

[dependencies]
bytemuck = "*"
clap = "*"
sdl2 = "*"
