[package]
name = "secret_store"
version = "0.1.0"
edition = "2021"
publish = false

[dependencies]
keyring = "2"
log = "0.4"
