[package]
name = "secure_element"
version = "0.1.0"
edition = "2021"
publish = false

[dependencies]
signature = "1"
