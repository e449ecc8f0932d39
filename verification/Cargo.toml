[package]
name = "polars_talib"
version = "0.1.0"
edition = "2021"
publish = false

[dependencies]
polars = "*"
serde = { version = "*", features = ["derive"] }
derive_builder = "*"
