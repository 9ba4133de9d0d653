[package]
name = "bevy_mod_plotters"
version = "0.1.0"
edition = "2021"
publish = false

[dependencies]
plotters = { version = "=0.3.7", default-features = false, features = ["bitmap_backend"] }
