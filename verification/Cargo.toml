[package]
name = "touchhle"
version = "0.1.0"
edition = "2021"
publish = false

[dependencies]
libc = "=0.2.191"
sdl2 = { version = "0.38", features = ["hidapi"] }
sdl2-sys = "0.38"
