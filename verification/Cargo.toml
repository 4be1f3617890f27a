[package]
name = "simple_notary"
version = "0.1.0"
edition = "2021"
publish = false

[dependencies]
alloy-primitives = "=1.7.3"
alloy-sol-types = "=1.7.3"
anyhow = "*"
axum = { version = "=0.8.9", features = ["ws"] }
clap = { version = "*", features = ["derive"] }
eyre = "*"
futures = "*"
hex = "=0.4.3"
k256 = "=0.14.0"
rand_chacha = "=0.3.1"
rsa = { version = "=0.9.10", features = ["sha2"] }
serde = { version = "*", features = ["derive"] }
serde_json = "*"
sha2 = "=0.10.9"
thiserror = "*"
tokio = { version = "*", features = ["full"] }
