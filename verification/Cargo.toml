[package]
name = "vector_commitment"
version = "0.1.0"
edition = "2021"
publish = false

[dependencies]
anyhow = "1"
ark-bls12-377 = "0.4"
ark-ec = "0.4"
ark-ff = "0.4"
ark-poly = "0.4"
ark-serialize = "0.4"
lazy_static = "1"
sha2 = "0.10"

[dev-dependencies]
rand = "0.8"
