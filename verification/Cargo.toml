[package]
name = "ppe"
version = "0.1.0"
edition = "2021"
publish = false

[dependencies]
heapless = "0.8"
crossbeam-channel = "0.5"
rand = "0.8"
tokio = { version = "1", features = ["rt", "rt-multi-thread", "time", "macros", "sync"] }
tracing = "0.1"
tracing-subscriber = { version = "0.3", features = ["env-filter"] }
clap = { version = "4", features = ["derive"] }
anyhow = "1"
thiserror = "1"
ratatui = "0.29"
crossterm = "0.28"
serde = { version = "1", features = ["derive"] }
