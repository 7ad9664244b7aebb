[package]
name = "flood_routing"
version = "0.1.0"
edition = "2021"
publish = false

[dependencies]
calamine = "*"
roots = "*"
enterpolation = "*"
rust_xlsxwriter = "*"
thiserror = "*"
derive_builder = "*"
clap = { version = "*", features = ["derive"] }
