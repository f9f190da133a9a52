[package]
name = "circuitlib-rs"
version = "0.1.0"
edition = "2021"
publish = false

[dependencies]
ark-bn254 = "=0.6.0"
ark-circom = "=0.6.0"
ark-ec = "=0.6.0"
ark-ff = "=0.6.0"
ark-groth16 = "=0.6.0"
ark-serialize = "=0.6.0"
ark-std = "=0.6.0"
groth16-solana = "=0.2.0"
num-bigint = "=0.4.8"
rand = { version = "=0.8.8", features = ["std", "std_rng"] }
wasmer = "=6.1.0"

[dev-dependencies]
ark-relations = "=0.6.0"
