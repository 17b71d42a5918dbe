[package]
name = "weatherman-core"
version = "0.4.1"
edition = "2021"
publish = false

[dependencies]
chrono = { version = "0.4", default-features = false, features = ["std"] }
anyhow = "1"
clap = { version = "4", features = ["derive"] }
colored = "2"
console = "0.15"
crossterm = "0.28"
dialoguer = "0.11"
dirs = "5"
ratatui = "0.29"
reqwest = { version = "0.12", default-features = false, features = ["json", "rustls-tls"] }
serde = { version = "1", features = ["derive"] }
serde_json = "1"
tokio = { version = "1", features = ["macros", "rt-multi-thread"] }
urlencoding = "2"
