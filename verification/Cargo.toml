[package]
name = "va"
version = "0.1.0"
edition = "2021"
publish = false

[dependencies]
ttf-parser = "*"
png = "*"
anyhow = "*"
roots = "*"
