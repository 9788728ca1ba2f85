[package]
name = "jira_tui"
version = "0.1.0"
edition = "2021"
publish = false

[dependencies]
crossterm = "=0.28.1"
ratatui = "=0.29.0"
itertools = "=0.14.0"
serde_json = "=1.0.151"
jira_v3_openapi = { version = "=1.6.1", features = ["all"] }
tokio = { version = "=1.53.2", features = ["macros", "rt-multi-thread"] }
