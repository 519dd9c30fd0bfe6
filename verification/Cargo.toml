[package]
name = "msm_dispatch"
version = "0.1.0"
edition = "2021"
publish = false

[dependencies]
halo2curves = "0.6"
pasta_curves = { version = "0.5", features = ["repr-c"] }
rand = "0.8"
rand_chacha = "0.3"
rayon = "1"
blst = "0.3"
semolina = "0.1"
sppark = "0.1"
