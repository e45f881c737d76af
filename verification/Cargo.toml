[package]
name = "private-contact-discovery"
version = "0.1.0"
edition = "2021"
publish = false

[dependencies]
anchor-lang = { version = "=0.32.2", features = ["init-if-needed"] }
arcium-anchor = "=0.9.7"
arcium-client = { version = "=0.9.7", default-features = false }
