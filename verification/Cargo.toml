[package]
name = "you_should_not_pass_client"
version = "0.1.0"
edition = "2021"
publish = false

[dependencies]
base64 = "=0.22.1"
crossterm = "0.28"
ratatui = "0.29"
tokio = { version = "1", features = ["macros", "net", "rt-multi-thread", "sync", "time"] }
tui-textarea = "0.7"
webbrowser = "=0.8.15"
