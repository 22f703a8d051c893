[package]
name = "finance_query_cli"
version = "0.1.0"
edition = "2021"
publish = false

[dependencies]
anyhow = "1"
chrono = "0.4"
chrono-tz = "*"
clap = { version = "4", features = ["derive", "env"] }
dirs = "*"
finance-query = "2"
futures = "0.3"
ratatui = "*"
rusqlite = { version = "*", features = ["bundled"] }
serde = { version = "1", features = ["derive"] }
serde_json = "1"
thiserror = "*"
tokio = { version = "1", features = ["full"] }
