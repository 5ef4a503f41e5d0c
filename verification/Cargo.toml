[package]
name = "bytepusher"
version = "0.1.0"
edition = "2021"
publish = false

[dependencies]
clap = { version = "=4.6.7", features = ["derive"] }
dasp_sample = "=0.11.0"
image = { version = "=0.25.10", default-features = false, features = ["png"] }
minifb = "=0.29.0"
rodio = { version = "=0.20.1", default-features = false }
spin_sleep = "=1.3.3"
