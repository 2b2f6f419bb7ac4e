[package]
name = "rga_adapters"
version = "0.1.0"
edition = "2021"
publish = false

[dependencies]
anyhow = "1"
async-stream = "0.3"
async-trait = "0.1"
lazy_static = "1"
log = "0.4"
tempfile = "3"
tokio = { version = "1", default-features = false, features = ["fs", "io-util", "process", "rt"] }
tokio-stream = { version = "0.1", default-features = false }
