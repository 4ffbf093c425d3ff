[package]
name = "ilo_nimi"
version = "0.1.0"
edition = "2021"
publish = false

[dependencies]
rand = { version = "0.9", features = ["small_rng"] }
rand_distr = "0.5"
clap = { version = "4", features = ["derive"] }
sha2 = "0.10"
