[package]
name = "oxanus"
version = "0.1.0"
edition = "2021"
publish = false

[dependencies]
uuid = { version = "=1.29.0", features = ["v4"] }
chrono = "=0.4.45"
serde_json = "=1.0.154"
cron = "=0.17.0"
rand = "=0.9.5"
serde = { version = "=1.0.229", features = ["derive"] }
tokio = { version = "=1.54.1", features = ["full"] }
tokio-util = "=0.7.20"
futures = "=0.3.34"
async-trait = "=0.1.92"
tracing = "=0.1.44"
deadpool-redis = "=0.23.1"
dotenvy = "=0.15.7"
syn = { version = "=2.0.119", features = ["full", "extra-traits"] }
quote = "=1.0.47"
proc-macro2 = "=1.0.107"
darling = "=0.21.3"
proc-macro-error2 = "=2.0.1"
