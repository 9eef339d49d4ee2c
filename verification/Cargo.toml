[package]
name = "degen_cash"
version = "0.1.0"
edition = "2021"
publish = false

[dependencies]
anchor-lang = { version = "0.31.1", features = ["init-if-needed"] }
anchor-spl = "0.31.1"
arcis-imports = "0.3.0"
arcium-anchor = "0.3.0"
arcium-client = { version = "0.3.0", default-features = false }
