[package]
name = "cranberries_backend"
version = "0.1.0"
edition = "2021"
publish = false

[dependencies]
ash = "0.37"
cgmath = "0.18"
memoffset = "0.9"
num = "0.4"
