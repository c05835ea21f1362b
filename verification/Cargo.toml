[package]
name = "tetris"
version = "0.1.0"
edition = "2021"
publish = false

[dependencies]
arrayvec = "0.7"
rand = "0.8"
sdl2 = { version = "0.35", features = ["ttf"] }
