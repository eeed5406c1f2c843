[package]
name = "hrana_session"
version = "0.1.0"
edition = "2021"
publish = false

[dependencies]
hrana-client = "*"
anyhow = "1"
async-trait = "0.1"
