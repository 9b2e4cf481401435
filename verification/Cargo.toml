[package]
name = "purremu-gb-core"
version = "0.1.0"
edition = "2021"
publish = false

[dependencies]
crossterm = "=0.29.0"
pixels = "0.15"
winit = "0.30"

[dev-dependencies]
rand = "=0.9.5"
