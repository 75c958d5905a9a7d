[package]
name = "sqlx"
version = "0.1.0"
edition = "2021"
publish = false

[dependencies]
bytes = "=0.4.12"
byteorder = "=1.5.0"
futures = "=0.3.34"
failure = "=0.1.8"
