[package]
name = "sshca"
version = "0.1.0"
edition = "2021"
publish = false

[dependencies]
anyhow = "=1.0.104"
aws-config = { version = "=1.13.0", features = ["behavior-version-latest"] }
aws-sdk-kms = "=1.126.0"
camino = "=1.2.6"
dotenvy = "=0.15.7"
pkcs1 = { version = "=0.7.5", features = ["pkcs8"] }
spki = "=0.7.3"
sshcerts = { version = "=0.15.4", default-features = false }
tokio = { version = "=1.54.1", features = ["rt-multi-thread"] }

[dev-dependencies]
ring = "=0.17.14"
