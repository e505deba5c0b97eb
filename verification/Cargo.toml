[package]
name = "anchor_token_metadata"
version = "0.1.0"
edition = "2021"
publish = false

[dependencies]
anchor-lang = "0.24.2"
spl-token-metadata = "0.0.1"
