[package]
name = "proton_meet"
version = "0.1.0"
edition = "2021"
publish = false

[dependencies]
base64 = "=0.22.1"
bs58 = "=0.5.1"
rand = "=0.8.8"
fluent-uri = "=0.3.2"
email_address = "=0.2.9"
sha2 = "=0.10.9"
hmac = "=0.12.1"
ed25519-dalek = { version = "=2.2.0", features = ["rand_core"] }
p256 = "=0.13.2"
p384 = "=0.13.1"
p521 = "=0.13.3"
signature = "=2.2.0"
hpke = { version = "=0.12.0", features = ["p384", "p521"] }
thiserror = "=2.0.21"
serde = { version = "=1.0.229", features = ["derive"] }
mls-spec = "=2.1.2"
ciborium = "=0.2.2"
