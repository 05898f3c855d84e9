[package]
name = "padvol"
version = "0.1.0"
edition = "2021"
publish = false

[dependencies]
launchy = "*"
alsa = "*"
anyhow = "*"
