[package]
name = "rust_engine"
version = "0.1.0"
edition = "2021"
publish = false

[dependencies]
chrono = "=0.4.45"
concurrent-hashmap = { version = "=0.2.2", default-features = false }
docopt = "=1.1.1"
num_cpus = "=1.17.0"
rand = "=0.8.8"
