[package]
name = "fdt"
version = "0.1.0"
edition = "2021"
publish = false

[dependencies]
regex = "1"
textwrap = "0.16"
url = "2"
json_comments = "0.2"
serde = { version = "1", features = ["derive"] }
serde_json = "1"
serde_yaml = "0.9"
clap = { version = "4", features = ["derive"] }
tokio = { version = "1", features = ["full"] }
color-eyre = "0.6"
futures = "0.3"
tokio-tungstenite = "0.21"
uuid = { version = "1", features = ["v4"] }
log = "0.4"
