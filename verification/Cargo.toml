[package]
name = "mime_sniff"
version = "0.1.0"
edition = "2021"
publish = false

[dependencies]
tree_magic_mini = { version = "=3.2.2", features = ["with-gpl-data"] }
tree_magic_db = "=3.0.1"
napi = "=3.15.0"
napi-derive = "=3.6.13"
