[package]
name = "ghostty_lsp"
version = "0.1.0"
edition = "2021"

[dependencies]
lsp-server = "=0.7.9"
lsp-types = "=0.97.0"
serde = "=1.0.229"
serde_json = "=1.0.154"
