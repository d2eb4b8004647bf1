[package]
name = "hedge_cli"
version = "0.1.0"
edition = "2021"
publish = false

[dependencies]
async-std = "*"
chrono = "*"
clap = { version = "*", features = ["derive"] }
home = "*"
reqwest = { version = "*", default-features = false }
serde = { version = "*", features = ["derive"] }
serde_json = "*"
serde_yaml = "*"
sysinfo = "*"
tokio = { version = "*", features = ["macros", "rt-multi-thread"] }
toml = "*"
