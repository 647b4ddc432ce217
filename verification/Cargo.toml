[package]
name = "docbox_lambda_cli"
version = "0.1.0"
edition = "2021"
publish = false

[dependencies]
aws-config = "=1.13.0"
aws-sdk-lambda = "=1.156.0"
clap = { version = "=4.6.7", features = ["derive"] }
color-eyre = "=0.6.5"
comfy-table = "=7.2.2"
docbox-management-interface = "=0.1.0"
dotenvy = "=0.15.7"
eyre = "=0.6.14"
serde = { version = "=1.0.229", features = ["derive"] }
serde_json = "=1.0.154"
thiserror = "=2.0.21"
tokio = { version = "=1.54.1", features = ["macros", "rt-multi-thread", "fs"] }
tracing = "=0.1.44"
tracing-indicatif = "=0.3.14"
tracing-subscriber = { version = "=0.3.23", features = ["env-filter"] }
uuid = "=1.29.0"
