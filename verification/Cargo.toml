[package]
name = "unchess_lib"
version = "0.1.0"
edition = "2021"
publish = false

[dependencies]
proptest = "*"
