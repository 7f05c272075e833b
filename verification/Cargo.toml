[package]
name = "pos_auth"
version = "0.1.0"
edition = "2021"
publish = false

[dependencies]
futures = "*"
serde = { version = "*", features = ["derive"] }
wasmbus-rpc = "*"
wasmcloud-interface-sqldb = "*"
