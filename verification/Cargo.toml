[package]
name = "secpar"
version = "0.2.0"
edition = "2021"
publish = false

[dependencies]
aws-config = { version = "1", features = ["behavior-version-latest"] }
aws-sdk-secretsmanager = "1"
aws-sdk-ssm = "1"
aws-types = "1"
clap = { version = "4", features = ["derive", "env"] }
color-eyre = "0.6"
comfy-table = "7.2"
dialoguer = "0.12"
indicatif = "0.18"
serde = { version = "1", features = ["derive"] }
serde_norway = "*"
thiserror = "2"
tokio = { version = "1", features = ["macros", "rt-multi-thread"] }
tracing = "0.1"
tracing-subscriber = { version = "0.3", features = ["env-filter"] }
