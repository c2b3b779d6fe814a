[package]
name = "compression_native"
version = "0.1.0"
edition = "2021"
publish = false

[dependencies]
async-compression = { version = "*", features = ["tokio", "zstd", "bzip2"] }
tokio = { version = "*", features = ["rt", "io-util"] }
napi = "*"
