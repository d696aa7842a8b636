[package]
name = "lurk_ipld_core"
version = "0.1.0"
edition = "2021"
publish = false

[dependencies]
cid = { version = "=0.11.3", features = ["serde"] }
serde = "1"
