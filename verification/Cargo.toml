[package]
name = "eventific"
version = "0.1.0"
edition = "2021"
publish = false

[dependencies]
uuid = "*"
colored = "*"
slog = "*"
strum = "*"
prometheus = "*"
futures = "*"
tokio = "*"
grpc = "*"
