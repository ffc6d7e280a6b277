[package]
name = "chord_node"
version = "0.1.0"
edition = "2021"
publish = false

[dependencies]
async-trait = "0.1"
capnp = "*"
capnp-rpc = "*"
clap = { version = "4", features = ["derive"] }
error-stack = "*"
futures = "0.3"
log = "0.4"
prost = "*"
simplelog = "*"
tokio = { version = "1", features = ["macros", "net", "rt-multi-thread", "sync", "time"] }
tokio-util = { version = "*", features = ["compat"] }
tonic = "*"
