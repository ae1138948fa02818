[package]
name = "tls_keys"
version = "0.1.0"
edition = "2021"
publish = false

[dependencies]
digest = { version = "0.10", default-features = false }
sha2 = { version = "0.10", default-features = false }
hkdf = { version = "0.12", default-features = false }
hmac = { version = "0.12", default-features = false }
heapless = { version = "0.8", default-features = false }
p256 = { version = "0.13", default-features = false, features = ["ecdh"] }
x25519-dalek = { version = "2", default-features = false, features = ["static_secrets"] }
rand_core = { version = "0.6", default-features = false, features = ["getrandom"] }
defmt = { version = "0.3", default-features = false }
