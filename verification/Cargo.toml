[package]
name = "cl_traits"
version = "0.1.0"
edition = "2021"
publish = false

[dependencies]
arrayvec = "=0.7.8"
smallvec = "=1.16.4"
staticvec = "=0.10.8"
tinyvec = { version = "=1.13.3", features = ["alloc"] }
serde = "=1.0.229"
proc-macro2 = "=1.0.107"
quote = "=1.0.47"
syn = "=1.0.109"

[dev-dependencies]
serde_json = "=1.0.154"
