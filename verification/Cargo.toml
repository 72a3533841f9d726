[package]
name = "urls2disk"
version = "0.1.0"
edition = "2021"
publish = false

[dependencies]
crossbeam = "0.8"
num_cpus = "1"
reqwest = { version = "0.12", default-features = false, features = ["blocking"] }
url = "2"
