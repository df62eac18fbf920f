[package]
name = "textgenturbo"
version = "0.1.0"
edition = "2021"
publish = false

[dependencies]
clap = { version = "4", features = ["derive"] }
colorgrad = "0.7"
image = { version = "0.25", default-features = false }
meshtext = "0.3"
noise = "0.9"
rand = "0.8"
xorwowgen = "*"
