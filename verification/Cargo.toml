[package]
name = "cp_config_client"
version = "0.1.0"
edition = "2021"
publish = false

[dependencies]
reqwest = { version = "*", default-features = false }
zip = { version = "*", default-features = false, features = ["deflate"] }
tokio = { version = "*", features = ["rt-multi-thread", "macros"] }
clap = "*"
