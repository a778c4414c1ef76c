[package]
name = "marketplace"
version = "0.1.0"
edition = "2021"
publish = false

[dependencies]
cosmwasm-std = "=2.3.5"
cw-utils = "=2.0.0"
cw2 = "=2.0.0"
cw721 = "=0.22.0"
cw-storage-plus = "=2.0.0"
semver = "=1.0.28"
serde = "=1.0.229"
thiserror = "=2.0.21"
