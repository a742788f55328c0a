[package]
name = "r1cs_fold"
version = "0.1.0"
edition = "2021"
publish = false

[dependencies]
nova-snark = "=0.76.0"
ff = "=0.13.1"
serde = { version = "=1.0.229", features = ["derive"] }
serde_json = "=1.0.151"
flate2 = "=1.1.10"
rand = "=0.8.8"
