[package]
name = "keeper_of_keys"
version = "0.1.0"
edition = "2021"
publish = false

[dependencies]
core-foundation = "*"
core-foundation-sys = "*"
security-framework-sys = "*"
serde = { version = "*", features = ["derive"] }
toml = "*"
log = "*"
