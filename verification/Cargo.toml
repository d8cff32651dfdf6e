[package]
name = "streamcore"
version = "0.1.0"
edition = "2021"
publish = false

[dependencies]
async-trait = "*"
axum = "*"
flume = "*"
futures = "*"
parking_lot = "*"
str0m = "*"
systemstat = "*"
tokio = { version = "*", features = ["rt-multi-thread", "macros", "net", "sync", "time"] }
tracing = "*"
tracing-subscriber = { version = "*", features = ["env-filter"] }
vpx-encode = "*"
