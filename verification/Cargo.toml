[package]
name = "mlem_runtime"
version = "0.1.0"
edition = "2021"
publish = false

[dependencies]
ebur128 = "*"
atomic_float = "*"
