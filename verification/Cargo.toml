[package]
name = "tubgerm"
version = "0.1.0"
edition = "2021"
publish = false

[dependencies]
rand = "0.9"
keyring = "3"
submarine = "0.1.1"
tokio = { version = "1", features = ["rt-multi-thread", "macros", "sync", "time"] }
ratatui = "0.30"
crossterm = { version = "0.29", features = ["event-stream"] }
futures = "0.3"
ratatui-textarea = "0.9"
ratatui-notifications = "0.1.0"
rodio = { version = "0.22", default-features = false }
color-eyre = "0.6"
directories = "6"
toml = "0.9"
serde = { version = "1", features = ["derive"] }
enum-iterator = "2"
