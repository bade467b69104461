[package]
name = "sitegen"
version = "0.1.0"
edition = "2021"
publish = false

[dependencies]
anyhow = "*"
askama = "*"
chrono = "*"
pulldown-cmark = "*"
serde_json = "*"
serde_yaml = "*"
