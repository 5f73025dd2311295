[package]
name = "insh"
version = "0.1.0"
edition = "2021"
publish = false

[dependencies]
uuid = { version = "1", features = ["v4"] }
clap = { version = "4", features = ["derive"] }
serde = { version = "1", features = ["derive"] }
serde_yaml = "0.9"
serde_yaml_ng = "0.10"
postcard = { version = "1", features = ["use-std"] }
dirs = "5"
fslock = "0.2"
lazy_static = "1"
crossbeam = "0.8"
typed-builder = "0.20"
pulldown-cmark = "0.12"
