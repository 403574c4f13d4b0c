[package]
name = "canispect"
version = "0.1.0"
edition = "2021"
publish = false

[dependencies]
candid = "*"
ic-cdk = "*"
ic-llm = "*"
serde = "*"
sha2 = "*"
