[package]
name = "derive_builder"
version = "0.1.0"
edition = "2021"
publish = false

[dependencies]
derive_builder_core = "=0.2.0"
quote = "=0.3.15"
syn = "=0.11.11"
