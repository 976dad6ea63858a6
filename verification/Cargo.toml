[package]
name = "bolt_policy"
version = "0.1.0"
edition = "2021"
publish = false

[dependencies]
lnp2p = "*"
amplify = { version = "*", features = ["derive"] }
