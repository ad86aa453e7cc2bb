[package]
name = "zkp"
version = "0.1.0"
edition = "2021"
publish = false

[dependencies]
base64 = "=0.13.1"
bellman = "=0.14.0"
bls12_381 = "=0.8.0"
ff = "=0.13.0"
pairing = "=0.23.0"
rand = "=0.8.5"
sha2 = "=0.10.8"
