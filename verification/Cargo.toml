[package]
name = "chez_backend"
version = "0.1.0"
edition = "2021"
publish = false

[dependencies]
camino = "1"
ecow = "0.2"
im = "15"
itertools = "0.13"
vec1 = "1"
