[package]
name = "arrow_json"
version = "0.1.0"
edition = "2021"
publish = false

[dependencies]
arrow-array = "*"
arrow-buffer = "*"
arrow-cast = "*"
arrow-schema = "*"
bytes = "*"
half = "*"
lexical-core = "*"
rand = "*"

[dev-dependencies]
serde_json = "*"
