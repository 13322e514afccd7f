[package]
name = "dingtalk"
version = "0.1.0"
edition = "2021"
publish = false

[dependencies]
base64 = "0.13"
json = "0.12.4"
reqwest = "0.11"
rust-crypto = "0.2.36"
urlencoding = "2.1"
