[package]
name = "escrow"
version = "0.1.0"
edition = "2021"
publish = false

[dependencies]
pinocchio = "0.8"
pinocchio-associated-token-account = "0.1"
pinocchio-system = "0.2"
pinocchio-token = "0.3"
