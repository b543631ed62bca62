[package]
name = "toio_fleet"
version = "0.1.0"
edition = "2021"
publish = false

[dependencies]
nannou_osc = "*"
