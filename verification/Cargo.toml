[package]
name = "snowcloud"
version = "0.1.0"
edition = "2021"
publish = false

[dependencies]
serde = "1"
postgres-types = "0.2"
bytes = "1"
