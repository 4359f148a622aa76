[package]
name = "jubjub"
version = "0.1.0"
edition = "2021"
publish = false

[dependencies]
pairing = "0.14"
rand = "0.4"
