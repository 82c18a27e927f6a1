[package]
name = "rusty_keys"
version = "0.1.0"
edition = "2021"
publish = false

[dependencies]
getopts = "0.2"
libc = "0.2"
core-graphics = "*"
core-foundation-sys = "*"
