[package]
name = "benten_engine"
version = "0.1.0"
edition = "2021"
publish = false

[dependencies]
blake3 = "=1.8.7"
ed25519-dalek = "=2.2.0"
zeroize = "=1.9.1"
serde = { version = "=1.0.229", features = ["derive"] }
serde_ipld_dagcbor = "=0.6.4"
thiserror = "=2.0.21"
subtle = "=2.6.1"
