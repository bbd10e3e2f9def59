[package]
name = "silicon_dirs"
version = "0.1.0"
edition = "2021"
publish = false

[dependencies]
dirs = "5.0"
lazy_static = "1.4"
