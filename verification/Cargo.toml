[package]
name = "fine_coverage"
version = "0.1.0"
edition = "2021"
publish = false

[dependencies]
clap = { version = "=4.6.7", features = ["derive"] }
ouroboros = "=0.18.5"
pyo3 = { version = "=0.22.6", features = ["auto-initialize"] }
regex = "=1.13.1"
