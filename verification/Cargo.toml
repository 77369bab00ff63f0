[package]
name = "near_stake_token"
version = "0.1.0"
edition = "2021"
publish = false

[dependencies]
primitive-types = "0.12"
near-sdk = "3.1.0"
