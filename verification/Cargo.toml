[package]
name = "fae"
version = "0.1.0"
edition = "2021"
publish = false

[dependencies]
fuzzy-matcher = "=0.3.7"
glob = "=0.3.4"
regex = "=1.13.1"
serde_json = "=1.0.154"
ignore = "=0.4.34"
crossterm = "=0.27.0"
notify = "6"
dirs = "5"
