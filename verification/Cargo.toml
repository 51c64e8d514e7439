[package]
name = "nsm_nitro_enclave_utils"
version = "0.1.0"
edition = "2021"
publish = false

[dependencies]
aws-nitro-enclaves-nsm-api = "=0.5.2"
coset = "=0.4.2"
p384 = "=0.13.1"
rand = "=0.8.8"
rustls-pki-types = "=1.15.1"
rustls-webpki = { version = "=0.103.15", features = ["ring"] }
serde = { version = "=1.0.229", features = ["derive"] }
serde_bytes = "=0.11.19"
serde_json = "=1.0.151"
sha2 = { version = "=0.10.9", features = ["oid"] }
x509-cert = { version = "=0.2.5", features = ["builder", "pem"] }
