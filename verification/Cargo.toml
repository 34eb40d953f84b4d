[package]
name = "bigml"
version = "0.1.0"
edition = "2021"
publish = false

[dependencies]
serde = { version = "=1.0.229", features = ["derive"] }
serde_json = "=1.0.154"
chrono = { version = "=0.4.45", features = ["serde"] }
url = "=2.5.8"
log = "=0.4.34"
env_logger = "=0.11.11"
structopt = "=0.3.26"
futures = "=0.3.34"
tokio = { version = "=1.54.1", features = ["rt-multi-thread", "time", "io-std", "io-util", "sync"] }
tokio-util = { version = "=0.7.20", features = ["codec"] }
reqwest = { version = "=0.12.28", default-features = false, features = ["json"] }
syn = { version = "=1.0.109", features = ["full"] }
quote = "=1.0.47"
proc-macro2 = "=1.0.107"
