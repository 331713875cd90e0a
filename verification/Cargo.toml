[package]
name = "conduit_op_node"
version = "0.1.0"
edition = "2021"
publish = false

[dependencies]
alloy-primitives = "1"
alloy-rpc-types-eth = "1"
op-alloy-consensus = "0.23"
op-alloy-rpc-types = "0.23"
op-alloy-rpc-types-engine = "0.23"
reqwest = { version = "0.12", default-features = false }
eyre = "0.6"
tokio = { version = "1", default-features = false, features = ["sync"] }
tracing = "0.1"

[dev-dependencies]
alloy-consensus = "1"
