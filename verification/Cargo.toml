[package]
name = "rust_db"
version = "0.1.0"
edition = "2021"

[dependencies]
anyhow = "1"
rustyline = "10"
