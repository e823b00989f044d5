[package]
name = "interop"
version = "0.1.0"
edition = "2021"
publish = false

[dependencies]
bincode = "0.5"
either = "1"
rustc-serialize = "0.3"
serde = "0.7"
