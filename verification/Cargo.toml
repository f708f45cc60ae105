[package]
name = "situwaition"
version = "0.1.0"
edition = "2021"
publish = false

[dependencies]
async-std = "1"
async-trait = "0.1"
derive_builder = "0.12"
thiserror = "1"
tokio = { version = "1", default-features = false, features = ["time"] }
