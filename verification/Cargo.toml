[package]
name = "stellar_structure"
version = "0.1.0"
edition = "2021"
publish = false

[dependencies]
thiserror = "2"
