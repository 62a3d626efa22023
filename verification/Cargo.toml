[package]
name = "tile_scene"
version = "0.1.0"
edition = "2021"
publish = false

[dependencies]
error-chain = "0.12"
sdl2 = { version = "0.29", features = ["image", "ttf"] }
