[package]
name = "mewcode_client"
version = "0.1.0"
edition = "2021"
publish = false

[dependencies]
tui-textarea = "0.7"
unicode-width = "*"
ratatui = { version = "0.29", features = ["unstable-rendered-line-info"] }
crossterm = "0.28"
tokio = { version = "1", features = ["rt-multi-thread", "macros", "sync", "time"] }
reqwest = { version = "0.12", default-features = false, features = ["json", "stream"] }
eventsource-stream = "*"
futures = "0.3"
serde = { version = "1", features = ["derive"] }
serde_json = "1"
chrono = { version = "0.4", features = ["serde"] }
uuid = { version = "1", features = ["serde", "v4"] }
clap = { version = "4", features = ["derive"] }
anyhow = "1"
figment = { version = "0.10", features = ["toml", "env"] }
tracing-subscriber = { version = "0.3", features = ["env-filter"] }
thiserror = "*"
syntect = { version = "5", default-features = false, features = ["default-fancy"] }
tui-markdown = { version = "*", default-features = false }
