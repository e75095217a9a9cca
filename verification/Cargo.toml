[package]
name = "b2"
version = "0.1.0"
edition = "2021"
publish = false

[dependencies]
anyhow = "1"
base64 = "0.22"
chrono = { version = "0.4", features = ["serde"] }
clap = { version = "4", features = ["derive"] }
colored = "*"
directories = "*"
humanize-bytes = "*"
mime_guess = "2"
progress_bar = "*"
reqwest = { version = "0.12", features = ["blocking", "json"] }
rs_sha1 = "*"
serde = { version = "1", features = ["derive"] }
serde_json = "1"
toml = "*"
urlencoding = "2"
walkdir = "2"
