[package]
name = "rust_memtester"
version = "0.1.0"
edition = "2021"
publish = false

[dependencies]
rand = "0.8"
num_cpus = "1"
region = "3"
rustix = { version = "0.38", default-features = false, features = ["std", "time", "param", "process"] }
