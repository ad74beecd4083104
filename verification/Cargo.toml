[package]
name = "report_creation"
version = "0.1.0"
edition = "2021"
publish = false

[dependencies]
clap = { version = "=4.6.7", features = ["derive"] }
comemo = "=0.4.0"
polars = { version = "*", default-features = false, features = ["fmt"] }
time = { version = "=0.3.55", features = ["local-offset"] }
typst = "=0.11.1"
typst-assets = { version = "=0.11.1", features = ["fonts"] }
typst-pdf = "=0.11.1"
