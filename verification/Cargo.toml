[package]
name = "jsonschema_core"
version = "0.1.0"
edition = "2021"
publish = false

[dependencies]
num-cmp = "0.1"
regex = "1"
serde_json = "1"
