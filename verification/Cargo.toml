[package]
name = "stellar_core"
version = "0.1.0"
edition = "2021"
publish = false

[dependencies]
serde_json = "*"
codespan-reporting = "*"
parking_lot = "*"
