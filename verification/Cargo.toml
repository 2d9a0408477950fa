[package]
name = "graphic_playlist"
version = "0.1.0"
edition = "2021"

[dependencies]
sfml = { version = "=0.16.0", default-features = false, features = ["graphics"] }
