[package]
name = "rsvd"
version = "0.1.0"
edition = "2021"
publish = false

[dependencies]
ash = "0.32"
ash-window = "0.6"
sdl2 = { version = "0.34", features = ["raw-window-handle"] }
