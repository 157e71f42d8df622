[package]
name = "kv-derive"
version = "0.1.0"
edition = "2021"
publish = false

[dependencies]
anyhow = "1"
chrono = { version = "0.4", default-features = false }
darling = "*"
proc-macro2 = "1"
quote = "1"
syn = { version = "*", features = ["full"] }
thiserror = "1"
