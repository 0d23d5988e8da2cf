[package]
name = "cordic"
version = "0.1.0"
edition = "2021"
publish = false

[dependencies]
fixed = "=1.31.0"
typenum = "=1.20.1"
