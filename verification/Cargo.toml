[package]
name = "unicom"
version = "0.1.0"
edition = "2021"
publish = false

[dependencies]
serde = "1"
serde_derive = "1"
serde_json = "1"
tokio = { version = "1", features = ["net", "sync", "io-util", "rt", "macros"] }
toml = "*"
walkdir = "2"
async-trait = "0.1"
hyper = "0.14"
