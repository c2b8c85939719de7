[package]
name = "core_text"
version = "0.1.0"
edition = "2021"
publish = false

[dependencies]
core-foundation = "=0.10.1"
core-graphics = { version = "=0.25.0", default-features = false }
