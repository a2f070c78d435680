[package]
name = "hyperspace_cosmos"
version = "0.1.0"
edition = "2021"
publish = false

[dependencies]
anyhow = "1"
async-trait = "0.1"
futures = "0.3"
ibc = "=0.17.0"
ibc-proto = "=0.19.1"
prost = "=0.10.4"
serde = { version = "1", features = ["derive"] }
tendermint = "=0.23.8"
tendermint-light-client-verifier = "=0.23.8"
tendermint-proto = "=0.23.8"
tendermint-rpc = { version = "=0.23.8", features = ["http-client", "websocket-client"] }
tonic = "=0.7.2"
