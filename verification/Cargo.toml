[package]
name = "miden_compiler"
version = "0.1.0"
edition = "2021"
publish = false

[dependencies]
semver = "=1.0.28"
toml = "=0.8.23"
serde = { version = "=1.0.229", features = ["derive"] }
syn = { version = "=2.0.119", features = ["full"] }
quote = "=1.0.47"
proc-macro2 = "=1.0.107"
anyhow = "=1.0.104"
log = "=0.4.35"
cargo_metadata = "=0.23.1"
miden-objects = "=0.8.1"
