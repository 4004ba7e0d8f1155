[package]
name = "training_network"
version = "0.1.0"
edition = "2021"
publish = false

[dependencies]
near-sdk = { version = "=5.1.0", default-features = false }
chrono = { version = "=0.4.45", default-features = false, features = ["now"] }
serde = { version = "=1.0.229", features = ["derive"] }
serde_json = "=1.0.154"
anyhow = "=1.0.104"
tracing = { version = "=0.1.44", default-features = false, features = ["std"] }
tokio = { version = "=1.54.1", default-features = false, features = ["rt-multi-thread", "sync", "time"] }
clap = { version = "=4.6.7", default-features = false, features = ["std", "derive", "env", "help", "usage", "error-context"] }
near-lake-framework = "=0.8.0-beta.5"
near-lake-primitives = "=0.8.0-beta.5"
near-lake-context-derive = "=0.8.0-beta.5"
