[package]
name = "espeakng"
version = "0.1.0"
edition = "2021"
publish = false

[dependencies]
errno = "*"
espeakng-sys = "*"
libc = "0.2"
once_cell = "1"
parking_lot = "0.12"
zstr = "*"
