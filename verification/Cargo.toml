[package]
name = "game_contracts"
version = "0.1.0"
edition = "2021"
publish = false

[dev-dependencies]
multiversx-sc = "=0.66.2"
