[package]
name = "calendar_app"
version = "0.1.0"
edition = "2021"
publish = false

[dependencies]
abstract-app = "0.21"
abstract-core = "0.21"
abstract-sdk = "0.21"
chrono = { version = "0.4", default-features = false }
cosmwasm-schema = "1.5"
cosmwasm-std = "1.5"
cw-asset = "3"
cw-controllers = "1"
cw-storage-plus = "1"
cw-utils = "1"
thiserror = "1"
