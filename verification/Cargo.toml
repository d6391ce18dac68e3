[package]
name = "gai"
version = "0.1.0"
edition = "2021"
publish = false

[dependencies]
ratatui = "*"
throbber-widgets-tui = "*"
tokio = { version = "1", features = ["rt-multi-thread", "sync"] }
