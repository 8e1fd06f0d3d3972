[package]
name = "nft_marketplace"
version = "0.1.0"
edition = "2021"
publish = false

[dependencies]
anchor-lang = "0.31.2"
anchor-spl = { version = "0.31.2", default-features = false, features = ["token", "associated_token"] }
