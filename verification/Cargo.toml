[package]
name = "fastnoise2_build"
version = "0.1.0"
edition = "2021"
publish = false

[dependencies]
bindgen = { version = "0.71", default-features = false, features = ["runtime"] }
cmake = "0.1"
