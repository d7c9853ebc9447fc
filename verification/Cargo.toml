[package]
name = "compress_iceberg"
version = "0.1.0"
edition = "2021"
publish = false

[dependencies]
serde = { version = "1", features = ["derive"] }
iceberg = "*"
