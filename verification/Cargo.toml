[package]
name = "graphql_extensions"
version = "0.1.0"
edition = "2021"
publish = false

[dependencies]
opentelemetry = { version = "*", default-features = false, features = ["trace"] }
serde_json = "*"
async-graphql-value = "*"
async-graphql-parser = "*"
spin = "*"
rust_decimal = "*"
