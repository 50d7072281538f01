[package]
name = "uacpi"
version = "0.1.0"
edition = "2021"
publish = false

[dependencies]
either = { version = "=1.19.0", default-features = false }
log = "=0.4.35"
bitfield-struct = "*"
