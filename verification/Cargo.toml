[package]
name = "axp209"
version = "0.1.0"
edition = "2021"
publish = false

[dependencies]
bitflags = "1"
byteorder = "1"
embedded-hal = "0.2"
