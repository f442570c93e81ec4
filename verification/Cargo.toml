[package]
name = "rptp"
version = "0.1.0"
edition = "2021"
publish = false

[dependencies]
prometheus = { version = "0.13", default-features = false }
tokio = { version = "=1.54.1", features = ["rt", "net", "time", "sync", "macros", "signal", "io-util"] }
tracing = "=0.1.44"
tracing-subscriber = { version = "=0.3.23", features = ["env-filter", "fmt"] }
