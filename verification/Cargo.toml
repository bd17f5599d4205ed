[package]
name = "city-builder"
version = "0.1.0"
edition = "2021"
publish = false

[dependencies]
rand = "0.10"
noise = "0.9"
argh = "0.1"
