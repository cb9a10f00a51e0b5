[package]
name = "oblivious_transfer"
version = "0.1.0"
edition = "2021"
publish = false

[dependencies]
ark-curve25519 = "0.4"
ark-ec = "0.4"
ark-ff = "0.4"
ark-serialize = "0.4"
ark-std = "0.4"
blake3 = "1"
chacha20 = "0.9"
rand = "0.8"
