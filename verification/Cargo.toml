[package]
name = "hyperdrive"
version = "0.1.0"
edition = "2021"
publish = false

[dependencies]
clap = { version = "3", features = ["derive"] }
console = "0.15"
crossbeam-channel = "0.5"
crossbeam-utils = "0.8"
cuda-runtime-sys = "=0.3.0-alpha.1"
hifitime = "3"
hip-sys = "0.1"
indicatif = "0.17"
itertools = "0.12"
log = "0.4"
marlu = { version = "*", default-features = false }
ndarray = { version = "0.16", features = ["rayon"] }
num-complex = "0.4"
rayon = "1"
scopeguard = "1"
serde = { version = "1", features = ["derive"] }
thiserror = "1"
vec1 = "1"
