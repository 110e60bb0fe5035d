[package]
name = "bridge_opencode"
version = "0.1.0"
edition = "2021"
publish = false

[dependencies]
anyhow = "=1.0.104"
clap = { version = "=4.6.7", features = ["derive"] }
glob = "=0.3.4"
neovim-lib = "=0.6.1"
# rmpv 0.4.7, which neovim-lib 0.6.1 uses, calls rmp functions that rmp removed in 0.8.11
rmp = "=0.8.10"
serde = { version = "=1.0.229", features = ["derive"] }
serde_json = "=1.0.154"
