[package]
name = "vault"
version = "0.1.0"
edition = "2021"
publish = false

[dependencies]
chacha20poly1305 = "=0.8.2"
rand = "=0.8.8"
zeroize = "=1.3.0"
