[package]
name = "rjwt"
version = "0.1.0"
edition = "2021"
publish = false

[dependencies]
base64 = "0.22"
ed25519-dalek = { version = "2", features = ["rand_core"] }
rand = "0.8"
zeroize = "1"
falcon-rs = "*"
serde = { version = "1", features = ["derive"] }
serde_json = "1"
futures = "0.3"
hr-id = "*"
pathlink = "*"
umask = "*"
pyo3 = "*"
pyo3-async-runtimes = { version = "*", features = ["tokio-runtime"] }
pyo3-stub-gen = "*"
