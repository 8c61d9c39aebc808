[package]
name = "dnd_tools"
version = "0.1.0"
edition = "2021"
publish = false

[dependencies]
rand = "0.9"
html2text = "0.12"
regex = "1"
scraper = "*"
serde = { version = "1", features = ["derive"] }
ron = "0.8"
anyhow = "1"
dirs = "*"
reqwest = { version = "0.12", default-features = false }
tokio = { version = "1", features = ["rt-multi-thread"] }
ratatui = "0.28"
crossterm = "0.28"
