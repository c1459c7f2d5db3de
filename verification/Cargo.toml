[package]
name = "candid_gen"
version = "0.1.0"
edition = "2021"
publish = false

[dependencies]
anyhow = "1"
clap = { version = "4", features = ["derive"] }
cmd_lib = "1"
serde_json = "1"
