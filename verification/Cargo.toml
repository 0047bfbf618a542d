[package]
name = "memehook"
version = "0.1.0"
edition = "2021"
publish = false

[dependencies]
anyhow = "=1.0.104"
clap = { version = "=4.6.7", features = ["derive", "env"] }
http-api-problem = { version = "=0.19.0", features = ["with-warp"] }
imgflip = "=0.1.0"
log = "=0.4.34"
pretty_env_logger = "=0.5.0"
reqwest = { version = "0.10", features = ["json"] }
serde = { version = "=1.0.229", features = ["derive"] }
serde_json = "=1.0.154"
thiserror = "=1.0.69"
tokio = { version = "0.2", features = ["macros", "rt-threaded"] }
url = { version = "=2.5.8", features = ["serde"] }
warp = { version = "0.2", default-features = false }
