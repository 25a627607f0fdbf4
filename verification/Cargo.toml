[package]
name = "priority"
version = "0.1.0"
edition = "2021"

[dependencies]
errno = "0.3"
libc = "0.2"
