[package]
name = "streams_core"
version = "0.1.0"
edition = "2021"
publish = false

[dependencies]
keccak = "0.1"
rand = "0.8"
