[package]
name = "bootstrap"
version = "0.1.0"
edition = "2021"
publish = false

[dependencies]
futures = "0.3"
slog = "2"
thiserror = "1"
tokio-compat = "0.1"
