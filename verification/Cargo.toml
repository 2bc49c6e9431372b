[package]
name = "ipc_scan"
version = "0.1.0"
edition = "2021"
publish = false

[dependencies]
polars-core = { version = "0.41", default-features = false }
polars-io = { version = "0.41", default-features = false }
