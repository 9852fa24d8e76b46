[package]
name = "r2pilot"
version = "0.1.0"
edition = "2021"
publish = false

[dependencies]
anyhow = "1"
aws-sdk-s3 = { version = "1", features = ["behavior-version-latest"] }
aws-smithy-types = "1"
chrono = "0.4"
clap = { version = "4", features = ["derive"] }
clap_complete = "4"
color-eyre = "0.6"
dialoguer = "0.11"
dirs = "5"
http = "1"
indicatif = "0.17"
mime_guess = "2"
reqwest = { version = "0.12", default-features = false, features = ["json", "rustls-tls"] }
serde = { version = "1", features = ["derive"] }
serde_json = "1"
tabled = "0.15"
thiserror = "1"
tokio = { version = "1", features = ["full"] }
toml = "0.8"
