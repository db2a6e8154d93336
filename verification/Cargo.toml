[package]
name = "diesel_tracing"
version = "0.1.0"
edition = "2021"
publish = false

[dependencies]
diesel = { version = "=2.2.12", features = ["sqlite", "postgres", "mysql_backend", "r2d2", "network-address", "i-implement-a-third-party-backend-and-opt-into-breaking-changes"] }
ipnetwork = "=0.21.1"
tracing = "=0.1.44"
