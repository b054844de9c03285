[package]
name = "audiofft"
version = "0.1.0"
edition = "2021"
publish = false

[dependencies]
gl = "*"
glfw = "*"
libpulse-binding = "*"
libpulse-simple-binding = "*"
spectrum-analyzer = "*"
