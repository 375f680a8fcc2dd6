[package]
name = "sqlite_browser"
version = "0.1.0"
edition = "2021"
publish = false

[dependencies]
clap = { version = "4", features = ["derive"] }
humantime = "2"
indexmap = "2"
ratatui = "*"
rusqlite = "*"
sqlparser = "*"
