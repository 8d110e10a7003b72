[package]
name = "ml_dsa_bip39"
version = "0.1.0"
edition = "2021"
publish = false

[dependencies]
bip39 = "=3.0.0"
hybrid-array = "=0.4.15"
ml-dsa = "=0.1.1"
serde = { version = "=1.0.229", features = ["derive"] }
sha3 = "0.11"
thiserror = "=2.0.21"
zeroize = "=1.9.1"
