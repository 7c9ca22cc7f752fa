[package]
name = "pinocchio_rent_bug"
version = "0.1.0"
edition = "2021"
publish = false

[dependencies]
pinocchio = "*"
pinocchio-system = "*"
solana-address = "*"
