[package]
name = "identity"
version = "0.1.0"
edition = "2021"
publish = false

[dependencies]
opaque-ke = { version = "=0.6.1", features = ["slow-hash"] }
curve25519-dalek = "=3.2.1"
sha2 = "=0.9.9"
digest = "=0.9.0"
argon2 = "=0.2.4"
rand = "=0.8.8"
chrono = "=0.4.45"
time = "=0.3.55"
constant_time_eq = "=0.1.5"
siwe = "=0.4.0"
bytes = "=1.12.1"
rusoto_core = { version = "=0.48.0", default-features = false, features = ["rustls"] }
rusoto_dynamodb = { version = "=0.48.0", default-features = false, features = ["rustls"] }

[dev-dependencies]
hex = "=0.4.3"
