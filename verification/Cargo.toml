[package]
name = "term_ai"
version = "0.1.0"
edition = "2021"
publish = false

[dependencies]
clap = { version = "4", features = ["derive", "env"] }
reqwest = { version = "0.12", features = ["blocking", "json"] }
scraper = "*"
serde = { version = "1", features = ["derive"] }
serde_json = "1"
urlencoding = "2"
