[package]
name = "masto_vision"
version = "0.1.0"
edition = "2021"
publish = false

[dependencies]
chrono = "0.4"
clap = "4"
fern = "0.6"
futures-util = "0.3"
kv-log-macro = "1"
log = "0.4"
mastodon-async = "1"
once_cell = "1"
reqwest = { version = "0.11", features = ["json"] }
serde = { version = "1", features = ["derive"] }
serde_json = "1"
textwrap = "0.16"
tokio = { version = "1", features = ["full"] }
voca_rs = "1"
