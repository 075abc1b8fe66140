[package]
name = "github_env"
version = "0.1.0"
edition = "2021"
publish = false

[dependencies]
anyhow = "=1.0.104"
github-actions-models = "=1.31.1"
regex = "=1.13.1"
streaming-iterator = "=0.1.9"
tracing = "=0.1.44"
tree-sitter = "0.24"
tree-sitter-bash = "0.23"
tree-sitter-powershell = "0.24"
