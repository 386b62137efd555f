[package]
name = "lazystream"
version = "1.5.0"
edition = "2021"
publish = false

[dependencies]
chrono = "0.4"
failure = "0.1"
async-std = "1"
read_input = "0.8"
serde_json = "1"
