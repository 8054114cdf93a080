[package]
name = "half_field"
version = "0.1.0"
edition = "2021"
publish = false

[dependencies]
anyhow = "1"
clap = "4"
nom = "7"
strum = { version = "*", features = ["derive"] }
