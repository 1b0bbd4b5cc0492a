[package]
name = "sdr-source-rs"
version = "0.1.0"
edition = "2021"
publish = false

[dependencies]
crossbeam = "0.8"
num-complex = "0.4"
thiserror = "2.0"
anyhow = "1.0"
