[package]
name = "architect_linter"
version = "0.1.0"
edition = "2021"
publish = false

[dependencies]
anyhow = "1"
console = "*"
dialoguer = "*"
indicatif = "*"
miette = { version = "*", features = ["fancy"] }
rayon = "1"
reqwest = { version = "*", default-features = false, features = ["json"] }
serde = { version = "1", features = ["derive"] }
serde_json = "1"
swc_common = "*"
swc_ecma_ast = "*"
swc_ecma_parser = "*"
thiserror = "*"
tokio = { version = "1", features = ["rt-multi-thread"] }
walkdir = "2"
