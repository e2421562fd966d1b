[package]
name = "cql_deser"
version = "0.1.0"
edition = "2021"
publish = false

[dependencies]
bytes = "1"
num-bigint = "0.4"
bigdecimal = "0.4"
thiserror = "*"
