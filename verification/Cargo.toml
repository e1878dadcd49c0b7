[package]
name = "shielded_mint"
version = "0.1.0"
edition = "2021"
publish = false

[dependencies]
bellman = { version = "0.13", default-features = false, features = ["groth16"] }
bls12_381 = "0.7"
group = "0.12"
jubjub = "0.9"
rand = "0.8"
