[package]
name = "spatial_engine"
version = "0.1.0"
edition = "2021"
publish = false

[dependencies]
rstar = "=0.13.0"
tokio = { version = "=1.53.2", features = ["rt-multi-thread", "macros", "sync", "time", "signal", "io-util", "net"] }
anyhow = "=1.0.104"
serde = { version = "=1.0.229", features = ["derive"] }
prost = "=0.14.4"
tracing = "=0.1.44"
tracing-subscriber = { version = "=0.3.23", features = ["env-filter"] }
