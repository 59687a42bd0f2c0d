[package]
name = "sync_clipboard"
version = "0.1.0"
edition = "2021"
publish = false

[dependencies]
sha2 = "0.10"
zstd = "0.13"
image = { version = "0.25", default-features = false, features = ["bmp", "png", "jpeg", "gif", "webp"] }
tokio = { version = "1", features = ["full"] }
tokio-tungstenite = "*"
futures-util = "0.3"
clap = { version = "4", features = ["derive"] }
env_logger = "0.11"
log = "0.4"
anyhow = "1"
wayland-clipboard-listener = "*"
clipboard-win = "5"
