[package]
name = "veil"
version = "0.1.0"
edition = "2021"
publish = false

[dependencies]
anchor-lang = { version = "0.31", features = ["init-if-needed"] }
arcium-anchor = "0.1"
arcium-client = { version = "0.1", default-features = false }
arcium-macros = "0.1"
arcis-imports = "0.1"
