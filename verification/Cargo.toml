[package]
name = "orbita"
version = "0.1.0"
edition = "2021"
publish = false

[dependencies]
bit_field = "=0.10.3"
font8x8 = "=0.3.1"
