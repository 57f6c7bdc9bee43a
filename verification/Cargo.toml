[package]
name = "sitnikov"
version = "0.1.0"
edition = "2021"
publish = false

[dependencies]
anyhow = "1"
bincode = "1"
clap = { version = "4", features = ["derive"] }
rand = "0.8"
rand_distr = "0.4"
rand_xoshiro = "0.6"
serde = "1"
