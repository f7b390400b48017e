[package]
name = "nutriscore"
version = "0.1.0"
edition = "2021"
publish = false

[dependencies]
bauxite = "*"
clap = { version = "4", features = ["derive"] }
dialoguer = "0.10"
indicatif = "0.17"
strum = { version = "0.24", features = ["derive"] }
