[package]
name = "infra_ccu_info"
version = "0.1.0"
edition = "2021"
publish = false

[dependencies]
prometheus = "0.13"
axum = "*"
tokio = { version = "1", features = ["rt-multi-thread", "macros", "signal", "net"] }
