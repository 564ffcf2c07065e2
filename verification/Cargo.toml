[package]
name = "escrow"
version = "0.1.0"
edition = "2021"
publish = false

[dependencies]
pinocchio = { version = "=0.11.2", features = ["cpi", "account-resize"] }
pinocchio-system = "=0.6.1"
pinocchio-token = "=0.7.0"
pinocchio-associated-token-account = "=0.4.0"
