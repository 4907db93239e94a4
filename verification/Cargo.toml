[package]
name = "stone_model"
version = "0.1.0"
edition = "2021"
publish = false

[dependencies]
nalgebra = "0.32"
ndarray = "0.15"
rand = { version = "0.8", features = ["small_rng"] }
rand_distr = "0.4"
serde = { version = "1", features = ["derive"] }
serde_json = "1"
