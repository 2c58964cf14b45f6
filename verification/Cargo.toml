[package]
name = "uncertain"
version = "0.3.1"
edition = "2021"
publish = false

[dependencies]
num-traits = "0.2"
rand = "0.8"
rand_pcg = "0.3"

[dev-dependencies]
rand_distr = "0.4"
