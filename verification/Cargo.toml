[package]
name = "cross_llvm"
version = "0.1.0"
edition = "2021"
publish = false

[dependencies]
which = "*"
target-lexicon = "*"
clap = { version = "*", features = ["derive"] }
anyhow = "*"
