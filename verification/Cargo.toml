[package]
name = "pgview"
version = "0.1.0"
edition = "2021"
publish = false

[dependencies]
postgres = { version = "0.19", features = ["with-chrono-0_4", "with-serde_json-1"] }
postgres-openssl = "0.5"
openssl = "0.10"
chrono = "0.4"
serde_json = "1"
