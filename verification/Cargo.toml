[package]
name = "resolver_probe"
version = "0.1.0"
edition = "2021"
publish = false

[dependencies]
trust-dns = { version = "0.14", default-features = false }
trust-dns-proto = { version = "0.3", default-features = false }
futures = "0.1"
tokio-core = "0.1"
failure = "0.1"
