[package]
name = "cgevent"
version = "0.1.0"
edition = "2021"
publish = false

[dependencies]
core-foundation = "0.9"
foreign-types = "0.3"
libc = "0.2"
