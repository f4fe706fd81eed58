[package]
name = "loop_registry"
version = "0.1.0"
edition = "2021"
publish = false

[dependencies]
core-foundation = "=0.9.4"
core-foundation-sys = "=0.8.7"
log = "=0.4.34"
