[package]
name = "plotting"
version = "0.1.0"
edition = "2021"
publish = false

[dependencies]
plotly = "*"
derive_builder = "*"
