[package]
name = "map_bridge"
version = "0.1.0"
edition = "2021"
publish = false

[dependencies]
maplibre_native = { version = "*", default-features = false }
