[package]
name = "overlay-projects"
version = "0.1.0"
edition = "2021"
publish = false

[dependencies]
concordium-std = "7"
