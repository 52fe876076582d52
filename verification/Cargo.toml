[package]
name = "program-analyzer"
version = "0.1.0"
edition = "2021"
publish = false

[dependencies]
dashmap = "6.1"
once_cell = "1"
serde_json = "1"
