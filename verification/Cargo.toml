[package]
name = "generator"
version = "0.1.0"
edition = "2021"
publish = false

[dependencies]
proc-macro2 = "=1.0.107"
unicode-ident = "=1.0.27"
vk-parse = "=0.22.0"
