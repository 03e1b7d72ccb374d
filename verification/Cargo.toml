[package]
name = "granne_registry"
version = "0.1.0"
edition = "2021"
publish = false

[dependencies]
granne = "*"
lazy_static = "*"
safer-ffi = "*"
