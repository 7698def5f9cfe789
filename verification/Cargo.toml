[package]
name = "sha256_hasher"
version = "0.1.0"
edition = "2021"
publish = false

[dependencies]
sha2 = "=0.10.9"
log = "=0.4.34"
solana-hash = { version = "=4.7.0", features = ["atomic"] }
solana-define-syscall = "=5.2.0"

[dev-dependencies]
rand = "=0.10.3"
