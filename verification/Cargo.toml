[package]
name = "path_builder"
version = "0.1.0"
edition = "2021"
publish = false

[dependencies]
lyon = "0.15"
iced_native = "0.2"
