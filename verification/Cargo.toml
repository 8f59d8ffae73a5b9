[package]
name = "debug_label"
version = "0.1.0"
edition = "2021"
publish = false

[dependencies]
swc_plugin = "=0.88.2"
