[package]
name = "scope_signup"
version = "0.1.0"
edition = "2021"
publish = false

[dependencies]
chrono = "=0.4.45"
jsonwebtoken = "=9.3.1"

[dev-dependencies]
serde_json = "=1.0.151"
