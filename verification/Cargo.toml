[package]
name = "ax"
version = "0.1.0"
edition = "2021"
publish = false

[dependencies]
chrono = { version = "0.4", features = ["serde"] }
crossterm = "*"
ratatui = "0.29"
regex = "1"
rmcp = { version = "*", features = ["server", "macros", "transport-io"] }
schemars = "1"
serde = { version = "1", features = ["derive"] }
serde_json = { version = "1", features = ["raw_value"] }
serde_yml = "*"
thiserror = "*"
throbber-widgets-tui = "0.8"
tokio = { version = "1", features = ["full"] }
tracing = "0.1"
uuid = { version = "1", features = ["v4"] }
