[package]
name = "bls12_381_algebra"
version = "0.1.0"
edition = "2021"
publish = false

[dependencies]
ark-bls12-381 = "0.4"
ark-ec = "0.4"
ark-ff = "0.4"
ark-serialize = "0.4"
hex = "0.4"
num-traits = "0.2"
rayon = "1"
