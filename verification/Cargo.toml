[package]
name = "composite_proof_system"
version = "0.1.0"
edition = "2021"
publish = false

[dependencies]
ark-bls12-381 = "=0.6.0"
ark-ec = "=0.6.0"
ark-ff = "=0.6.0"
ark-serialize = "=0.6.0"
ark-std = "=0.6.0"
sha3 = "=0.10.9"
rand = "=0.8.8"
