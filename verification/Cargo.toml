[package]
name = "gnu_libjit"
version = "0.1.0"
edition = "2021"
publish = false

[dependencies]
gnu-libjit-sys = "*"
libc = "*"
