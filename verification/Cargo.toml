[package]
name = "maybe-owned"
version = "0.3.4"
edition = "2021"
publish = false

[dependencies]
serde = "1"
