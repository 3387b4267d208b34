[package]
name = "tuisky"
version = "0.1.0"
edition = "2021"
publish = false

[dependencies]
indexmap = "2"
textwrap = "0.16"
bsky-sdk = "0.1"
ratatui = "0.29"
crossterm = { version = "0.28", features = ["event-stream"] }
tokio = { version = "1", features = ["full"] }
futures-util = "0.3"
color-eyre = "0.6"
clap = { version = "4", features = ["derive"] }
directories = "5"
env_logger = "0.11"
log = "0.4"
serde = { version = "1", features = ["derive"] }
serde_json = "1"
toml = "0.8"
chrono = "0.4"
open = "5"
tui-textarea = "0.7"
image = { version = "0.25", default-features = false, features = ["png", "jpeg", "gif", "webp"] }
