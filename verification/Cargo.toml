[package]
name = "rpc_source"
version = "0.1.0"
edition = "2021"
publish = false

[dependencies]
ethers = { version = "2.0.7", default-features = false, features = ["rustls"] }
governor = { version = "0.5.1", default-features = false, features = ["std"] }
tokio = { version = "1.29", features = ["sync", "rt-multi-thread"] }
