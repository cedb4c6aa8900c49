[package]
name = "minedmap_core"
version = "0.1.0"
edition = "2021"
publish = false

[dependencies]
anyhow = "1"
image = "*"
indexmap = "2"
num_cpus = "1"
regex = "1"
serde = { version = "1", features = ["derive"] }
