[package]
name = "restix"
version = "0.1.0"
edition = "2021"
publish = false

[dependencies]
anyhow = "1"
crossterm = "0.28"
ratatui = "0.29"
redis = "0.27"
serde_json = "1"
