[package]
name = "scale_gizmo"
version = "0.1.0"
edition = "2021"
publish = false

[dependencies]
emath = "*"
glam = "*"
