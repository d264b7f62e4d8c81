[package]
name = "account_kit"
version = "0.1.0"
edition = "2021"
publish = false

[dependencies]
sha2 = "=0.10.9"
curve25519-dalek = "=4.1.3"
pinocchio = { version = "=0.11.2", features = ["cpi", "account-resize"] }
pinocchio-system = "=0.6.1"
pinocchio-log = "=0.5.1"
