[package]
name = "jwt_claims"
version = "0.1.0"
edition = "2021"
publish = false

[dependencies]
coarsetime = "0.1"
ct-codecs = "1"
rand = "0.8"
serde = { version = "1", features = ["derive"] }
