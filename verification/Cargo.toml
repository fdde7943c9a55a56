[package]
name = "ibc_transfer"
version = "0.1.0"
edition = "2021"
publish = false

[dependencies]
cosmwasm-std = { version = "=1.5.11", features = ["stargate"] }
cw2 = "=1.1.2"
cw-storage-plus = "=1.2.0"
serde = { version = "=1.0.229", features = ["derive"] }
serde-json-wasm = "=1.0.1"
prost = "=0.12.6"
thiserror = "=1.0.69"
