[package]
name = "reveris_noctis"
version = "0.1.0"
edition = "2021"
publish = false

[dependencies]
open = "5"
reqwest = { version = "0.11", default-features = false, features = ["blocking"] }
