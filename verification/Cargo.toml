[package]
name = "repel"
version = "0.1.0"
edition = "2021"
publish = false

[dependencies]
rustyline = "=15.0.0"
