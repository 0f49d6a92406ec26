[package]
name = "hostroute"
version = "0.1.0"
edition = "2021"
publish = false

[dependencies]
lambda_http = "*"
tokio = { version = "*", features = ["macros", "rt-multi-thread"] }
