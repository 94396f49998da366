[package]
name = "blob2spo"
version = "0.1.0"
edition = "2021"
publish = false

[dependencies]
uuid = { version = "=1.27.0", features = ["v4"] }
reqwest = { version = "=0.13.5", features = ["json"] }
tokio = { version = "*", features = ["full"] }
serde = { version = "*", features = ["derive"] }
serde_json = "*"
clap = { version = "*", features = ["derive"] }
log = "*"
pretty_env_logger = "*"
console = "*"
spinner = "*"
futures = "*"
warp = { version = "=0.4.3", features = ["server"] }
azure_identity = "=1.0.0"
azure_storage = "=0.21.0"
azure_storage_blobs = "=0.21.0"
azure_core = "=0.21.0"
async-trait = "*"
time = "*"
