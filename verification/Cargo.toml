[package]
name = "elitebox"
version = "0.1.0"
edition = "2021"
publish = false

[dependencies]
alsa = "*"
clap = { version = "*", features = ["derive"] }
libc = "*"
symphonia = "*"
