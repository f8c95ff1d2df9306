[package]
name = "sysctl"
version = "0.4.0"
edition = "2021"
publish = false

[dependencies]
bitflags = "1"
byteorder = "1"
failure = "0.1"
libc = "0.2"
walkdir = "2"
