[package]
name = "cmdipass"
version = "0.4.0"
edition = "2021"
publish = false

[dependencies]
base64 = "0.9"
rust-crypto = "0.2.36"
rand = "0.4"
sodiumoxide = "0.2"
serde = { version = "1", features = ["derive"] }
serde_json = "1"
hyper = "0.10"
docopt = "1"
env_logger = "*"
log = "0.4"
named_pipe = "*"
