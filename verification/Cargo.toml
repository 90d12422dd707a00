[package]
name = "natlink"
version = "0.1.0"
edition = "2021"
publish = false

[dependencies]
tokio = { version = "*", features = ["rt-multi-thread", "macros", "net", "time", "signal", "sync"] }
reqwest = { version = "*", default-features = false, features = ["json"] }
serde = { version = "*", features = ["derive"] }
serde_json = "*"
toml = "*"
log = "*"
env_logger = "*"
public-ip = "*"
