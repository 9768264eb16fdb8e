[package]
name = "rust_odbc_csv"
version = "0.1.0"
edition = "2021"
publish = false

[dependencies]
csv = "=1.4.0"
uuid = { version = "=1.29.0", features = ["v4"] }
odbc-api = "=29.2.0"
pyo3 = "=0.20.3"
serde = { version = "=1.0.229", features = ["derive"] }
serde_json = "=1.0.154"
lazy_static = "=1.5.1"
