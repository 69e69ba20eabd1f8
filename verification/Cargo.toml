[package]
name = "two_party_gg18"
version = "0.1.0"
edition = "2021"
publish = false

[dependencies]
curv-kzen = "=0.9.0"
kzen-paillier = "=0.4.2"
multi-party-ecdsa = "=0.8.1"
zk-paillier = "=0.4.3"
sha2 = "=0.9.9"
hmac = "=0.11.0"
serde = { version = "1.0", features = ["derive"] }

[dev-dependencies]
secp256k1 = "=0.20.3"
