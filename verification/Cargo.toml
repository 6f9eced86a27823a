[package]
name = "selene_ls"
version = "0.1.0"
edition = "2021"
publish = false

[dependencies]
serde_json = "1"
tokio = { version = "1", features = ["rt-multi-thread", "macros", "process", "io-std", "io-util"] }
tower-lsp = "0.20"
