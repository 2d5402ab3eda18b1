[package]
name = "cayley"
version = "0.1.0"
edition = "2021"
publish = false

[dependencies]
rustc-serialize = "0.3"
serde_json = "*"
url = "*"
hyper = "0.10"
