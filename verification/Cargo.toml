[package]
name = "periphery"
version = "0.1.0"
edition = "2021"
publish = false

[dependencies]
anyhow = "=1.0.104"
shell-escape = "=0.1.5"
urlencoding = "=2.1.3"
tokio = { version = "=1.54.1", features = ["time", "rt"] }
tracing = "=0.1.44"
mogh_secret_file = { version = "=2.0.0", features = ["tokio"] }
mogh_pki = "=4.0.0"
