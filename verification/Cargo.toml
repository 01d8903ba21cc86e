[package]
name = "http_connection"
version = "0.1.0"
edition = "2021"
publish = false

[dependencies]
bytes = "=1.12.1"
http = "=1.5.0"
monoio = "=0.2.4"
monoio-http = "=0.3.12"
tracing = "0.1"
