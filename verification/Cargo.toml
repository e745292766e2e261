[package]
name = "tremor_ls"
version = "0.1.0"
edition = "2021"
publish = false

[dependencies]
tremor-script = "*"
tower-lsp = "*"
tokio = { version = "*", features = ["io-std", "rt-multi-thread", "macros"] }
futures = "*"
serde_json = "*"
