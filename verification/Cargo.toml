[package]
name = "flowfield"
version = "0.1.0"
edition = "2021"
publish = false

[dependencies]
rand = "0.8"
noise = "0.7"
clap = { version = "4", features = ["derive"] }
