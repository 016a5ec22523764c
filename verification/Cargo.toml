[package]
name = "termtube"
version = "0.1.0"
edition = "2021"
publish = false

[dependencies]
rand = "0.8"
shellexpand = "3"
clap = { version = "4", features = ["derive"] }
crossterm = "0.28"
cpal = "0.15"
dirs = "5"
ratatui = "0.29"
rustfft = "6"
serde = { version = "1", features = ["derive"] }
serde_json = "1"
thiserror = "1"
tokio = { version = "1", features = ["rt-multi-thread", "process", "macros"] }
toml = "0.8"
tracing = "0.1"
tracing-subscriber = { version = "0.3", features = ["env-filter"] }

[dev-dependencies]
tempfile = "3"
