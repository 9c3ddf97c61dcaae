[package]
name = "glissando"
version = "0.1.0"
edition = "2021"
publish = false

[dependencies]
indexmap = { version = "=2.14.2", features = ["serde"] }
ndarray = "=0.17.2"
argmin = "=0.11.0"
statrs = "=0.19.1"
rand = "=0.9.5"
rand_distr = "=0.5.1"
serde = { version = "=1.0.229", features = ["derive"] }
serde_json = "=1.0.154"
thiserror = "=2.0.21"
