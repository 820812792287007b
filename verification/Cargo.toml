[package]
name = "fork_relay"
version = "0.1.0"
edition = "2021"
publish = false

[dependencies]
ethers = { version = "2.0", default-features = false, features = ["ws", "rustls"] }
ethers-providers = { version = "2.0", default-features = false, features = ["ws", "rustls"] }
tokio = { version = "1", features = ["macros", "rt-multi-thread", "sync", "time"] }
