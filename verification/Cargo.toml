[package]
name = "spanner_statement"
version = "0.1.0"
edition = "2021"
publish = false

[dependencies]
base64 = "*"
chrono = "0.4"
prost-types = "*"
rust_decimal = "*"
