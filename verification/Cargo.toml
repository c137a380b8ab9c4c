[package]
name = "primitives"
version = "0.1.0"
edition = "2021"

[dev-dependencies]
crossbeam-utils = "0.8"
