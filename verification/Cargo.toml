[package]
name = "bacchus"
version = "0.1.0"
edition = "2021"
publish = false

[dependencies]
sha2 = "0.10"
hex = "0.4"
rusqlite = { version = "*", features = ["bundled"] }
serde = { version = "1", features = ["derive"] }
serde_json = "1"
clap = { version = "4", features = ["derive"] }
chrono = "0.4"
ureq = { version = "2", features = ["json"] }
walkdir = "2"
rayon = "1"
strsim = "*"
tree-sitter = "*"
tree-sitter-typescript = "*"
tree-sitter-javascript = "*"
tree-sitter-python = "*"
tree-sitter-go = "*"
tree-sitter-rust = "*"
