[package]
name = "catch_cli"
version = "0.1.0"
edition = "2021"
publish = false

[dependencies]
base64 = "=0.22.1"
libaes = "=0.7.0"
pkcs8 = "=0.10.2"
rand = "=0.8.8"
regex = "=1.13.1"
rsa = { version = "=0.9.10", features = ["sha2"] }
unicode-segmentation = "=1.13.3"
unicode-width = "=0.2.0"
log = "=0.4.34"
ratatui = "=0.29.0"
reqwest = { version = "=0.12.28", features = ["json"] }
serde = { version = "=1.0.229", features = ["derive"] }
throbber-widgets-tui = "=0.8.0"
tokio = { version = "=1.54.1", features = ["full"] }
tui-textarea = "=0.7.0"
webbrowser = "=1.2.5"
