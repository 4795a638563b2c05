[package]
name = "julia_set"
version = "0.1.0"
edition = "2021"
publish = false

[dependencies]
clap = { version = "4", features = ["derive"] }
image = "0.25"
indicatif = "0.17"
num = "0.4"
rayon = "1"
