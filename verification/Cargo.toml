[package]
name = "mangohudlib"
version = "0.1.0"
edition = "2021"
publish = false

[dependencies]
eyre = "*"
fs-err = "*"
rgb = "*"
