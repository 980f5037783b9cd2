[package]
name = "bmp5xx"
version = "0.1.0"
edition = "2021"
publish = false

[dependencies]
byteorder = "1"
embedded-hal-async = "1"
