[package]
name = "snpkey"
version = "0.1.0"
edition = "2021"
publish = false

[dependencies]
anyhow = "=1.0.104"
bincode = "=1.3.3"
clap = { version = "4", features = ["derive"] }
sev = { version = "=8.0.0", default-features = false, features = ["snp"] }
