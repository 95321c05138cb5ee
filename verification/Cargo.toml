[package]
name = "oidc_gate"
version = "0.1.0"
edition = "2021"
publish = false

[dependencies]
serde_json = "1"
base64 = "0.22"
jsonwebtoken = "9"
chrono = "0.4"
hyper = "0.10"
