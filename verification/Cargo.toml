[package]
name = "tdjson-runtime"
version = "0.1.0"
edition = "2021"
publish = false

[dependencies]
libloading = "0.8"
serde_json = "1"
thiserror = "*"
