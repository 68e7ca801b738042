[package]
name = "hasher"
version = "0.1.0"
edition = "2021"
publish = false

[dependencies]
rust-crypto = "0.2.36"
clap = "2"
colored = "1"
env_logger = "0.4"
log = "0.3"
