[package]
name = "tls_connector"
version = "0.1.0"
edition = "2021"
publish = false

[dependencies]
openssl = "0.10"
futures-lite = "1"
async-trait = "0.1"
log = "0.4"
