[package]
name = "winit-block-on"
version = "0.3.0"
edition = "2021"
publish = false

[dependencies]
winit = "0.29"
pin-utils = "0.1"
