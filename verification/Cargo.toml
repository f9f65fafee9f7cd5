[package]
name = "extractor_transformer"
version = "0.1.0"
edition = "2021"
publish = false

[dependencies]
alloy = { version = "0.1", features = ["dyn-abi", "json-abi", "provider-http", "rpc-types"] }
hex = "0.4"
serde = { version = "1", features = ["derive"] }
serde_json = "1"
tokio = { version = "1", features = ["macros", "rt-multi-thread", "time", "signal"] }
log = "0.4"
dotenvy = "0.15"
prost = "0.13"
