[package]
name = "whoami_profile"
version = "0.1.0"
edition = "2021"
publish = false

[dependencies]
actix-web = "*"
actix-identity = "*"
serde = { version = "*", features = ["derive"] }
