[package]
name = "cxon"
version = "0.1.0"
edition = "2021"
publish = false

[dependencies]
num_cpus = "*"
pathdiff = "*"
serde = { version = "*", features = ["derive"] }
serde_json = "*"
which = "*"
