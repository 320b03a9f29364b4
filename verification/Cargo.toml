[package]
name = "maybe_owned_trait"
version = "0.1.0"
edition = "2021"
publish = false

[dependencies]
beef = "0.5"

[dev-dependencies]
rand = "0.8"
