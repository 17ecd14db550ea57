[package]
name = "expr_interp"
version = "0.1.0"
edition = "2021"
publish = false

[dependencies]
clearscreen = "*"
colored = "2"
rustc_apfloat = "*"
