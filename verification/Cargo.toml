[package]
name = "ironfish"
version = "0.1.0"
edition = "2021"
publish = false

[dependencies]
sapling-crypto = "=0.9.0"
bellman = "=0.15.0"
jubjub = "=0.11.1"
bls12_381 = "=0.9.0"
ff = "=0.14.0"
group = "=0.14.0"
rand = "0.10"
chacha20poly1305 = "=0.10.1"
