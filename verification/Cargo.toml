[package]
name = "gradr"
version = "0.1.0"
edition = "2021"
publish = false

[dependencies]
postgres = "0.19"
hyper = "0.10"
serde_json = "1"
