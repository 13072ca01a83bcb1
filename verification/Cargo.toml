[package]
name = "deysis_tui"
version = "0.1.0"
edition = "2021"
publish = false

[dependencies]
cookie_store = "*"
crossterm = "*"
futures = "*"
log = "*"
rand = "*"
ratatui = "*"
reqwest = { version = "*", features = ["json", "cookies"] }
reqwest_cookie_store = "*"
serde = { version = "*", features = ["derive"] }
serde_json = "*"
serde_yml = "*"
tokio = { version = "*", features = ["rt-multi-thread", "macros"] }
