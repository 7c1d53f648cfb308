[package]
name = "script_dom"
version = "0.1.0"
edition = "2021"
publish = false

[dependencies]
elliptic-curve = "=0.14.3"
p256 = { version = "=0.14.0", features = ["ecdh"] }
p384 = { version = "=0.14.0", features = ["ecdh"] }
ml-kem = "=0.3.4"
sha3 = "=0.12.0"
shake = "=0.1.0"
kem = "=0.3.0"
x-wing = "=0.1.1"
zeroize = "=1.9.1"
