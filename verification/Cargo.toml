[package]
name = "homely_bridge"
version = "0.1.0"
edition = "2021"
publish = false

[dependencies]
anyhow = "*"
async-ctrlc = "*"
async-std = "*"
clap = { version = "*", features = ["derive"] }
env_logger = "*"
log = "*"
reqwest = { version = "*", default-features = false, features = ["json"] }
rust_socketio = "*"
serde = { version = "*", features = ["derive"] }
serde_json = "*"
tide = "*"
tokio = { version = "*", default-features = false, features = ["rt-multi-thread", "macros"] }
