[package]
name = "raytracer"
version = "0.1.0"
edition = "2021"
publish = false

[dependencies]
chrono = "0.4"
clap = "2"
crossbeam-channel = "0.5"
crossbeam-utils = "0.8"
num_cpus = "1"
png = "0.16"
rand = { version = "0.8", features = ["small_rng"] }
