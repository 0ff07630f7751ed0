[package]
name = "turborepo_cache"
version = "0.1.0"
edition = "2021"
publish = false

[dependencies]
url = "2"
tokio = { version = "1", features = ["full"] }
hyper = { version = "0.14", features = ["full"] }
routerify = "3"
clap = { version = "4", features = ["derive"] }
anyhow = "1"
env_logger = "*"
bytes = "1"
futures = "0.3"
async-trait = "0.1"
aws-config = { version = "*", features = ["behavior-version-latest"] }
aws-sdk-s3 = "*"
aws-smithy-http = "*"
