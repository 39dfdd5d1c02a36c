[package]
name = "actlog"
version = "0.1.0"
edition = "2021"
publish = false

[dependencies]
anyhow = "=1.0.104"
aws-config = { version = "=1.13.0", default-features = false, features = ["behavior-version-latest", "rt-tokio"] }
aws-sdk-autoscaling = { version = "=1.138.0", default-features = false, features = ["rt-tokio"] }
aws-sdk-cloudwatch = { version = "=1.138.0", default-features = false, features = ["rt-tokio"] }
aws-sdk-costexplorer = { version = "=1.136.0", default-features = false, features = ["rt-tokio"] }
aws-sdk-s3 = { version = "=1.155.0", default-features = false, features = ["rt-tokio"] }
chrono = { version = "=0.4.45", features = ["serde"] }
clap = { version = "=4.6.7", features = ["derive"] }
colored = "=2.2.0"
dirs = "=5.0.1"
reqwest = { version = "=0.12.28", default-features = false }
serde = { version = "=1.0.229", features = ["derive"] }
serde_json = "=1.0.154"
sysinfo = { version = "0.30", default-features = false }
thiserror = "=1.0.69"
tokio = { version = "=1.54.1", features = ["macros", "rt-multi-thread"] }
