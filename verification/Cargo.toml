[package]
name = "tiff_export"
version = "0.1.0"
edition = "2021"
publish = false

[dependencies]
tiff = "*"
mrc = "*"
rayon = "*"
clap = { version = "*", features = ["derive"] }
log = "*"
env_logger = "*"
