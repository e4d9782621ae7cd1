[package]
name = "dispipe"
version = "0.1.0"
edition = "2021"
publish = false

[dependencies]
rust-ini = "*"
nix = { version = "*", features = ["fs"] }
serenity = { version = "*", default-features = false, features = ["client", "gateway", "model", "http", "rustls_backend"] }
tokio = { version = "*", features = ["rt-multi-thread"] }
