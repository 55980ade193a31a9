[package]
name = "tree_shaker"
version = "0.1.0"
edition = "2021"
publish = false

[dependencies]
oxc = { version = "=0.30.5", features = ["semantic", "minifier", "codegen"] }
