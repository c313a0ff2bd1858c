[package]
name = "slippy"
version = "0.1.0"
edition = "2021"
publish = false

[dependencies]
csv = "=1.4.0"
rand = "=0.10.3"
rand_distr = "=0.6.0"
