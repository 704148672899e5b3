[package]
name = "qrdx"
version = "0.1.0"
edition = "2021"
publish = false

[dependencies]
serde_json = "=1.0.154"
alloy-genesis = "=2.5.0"
