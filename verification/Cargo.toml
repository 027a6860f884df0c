[package]
name = "cmdkit"
version = "0.1.0"
edition = "2021"
publish = false

[dependencies]
clap = { version = "4", features = ["derive"] }
fastrand = "2"
reqwest = { version = "0.12", features = ["blocking"] }
walkdir = "2"
