[package]
name = "autocomplete_broker"
version = "0.1.0"
edition = "2021"
publish = false

[dependencies]
globset = "=0.4.21"
regex = "=1.13.1"
url = "=2.5.8"
serde_json = "=1.0.154"
serde = { version = "=1.0.229", features = ["derive"] }
uuid = { version = "=1.29.0", features = ["serde", "v4"] }
tokio = { version = "=1.54.1", features = ["macros", "rt-multi-thread", "net", "time", "process", "sync", "io-util"] }
tokio-util = "=0.7.20"
async-trait = "=0.1.92"
axum = "=0.8.9"
tower-http = { version = "=0.6.11", features = ["cors", "trace"] }
tracing = "=0.1.44"
tracing-subscriber = { version = "=0.3.23", features = ["env-filter"] }
clap = { version = "=4.6.7", features = ["derive"] }
config = "=0.15.27"
schemars = { version = "=1.2.3", features = ["uuid1"] }
thiserror = "=2.0.21"

[dev-dependencies]
