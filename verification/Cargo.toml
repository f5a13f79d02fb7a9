[package]
name = "alberto-cli"
version = "0.3.0"
edition = "2021"
publish = false

[dependencies]
anyhow = "1"
async-stream = "0.3"
clap = { version = "4", features = ["derive", "env"] }
clap_complete = "4"
dirs = "5"
image = { version = "0.25", default-features = false, features = ["png"] }
indicatif = "0.17"
prost = "0.13"
ratatui = "0.29"
serde = { version = "1", features = ["derive"] }
serde_json = "1"
tempfile = "3"
tokio = { version = "1", features = ["rt-multi-thread", "macros", "fs", "time", "io-util"] }
toml = "0.8"
tonic = "0.12"
uuid = { version = "1", features = ["v4"] }
