[package]
name = "snarkify_prover"
version = "0.1.0"
edition = "2021"
publish = false

[dependencies]
serde = { version = "*", features = ["derive"] }
serde_json = "*"
url = "*"
reqwest = { version = "*", default-features = false }
reqwest-middleware = "*"
reqwest-retry = "*"
async-trait = "*"
anyhow = "*"
http = "*"
log = "*"
