[package]
name = "zupo"
version = "0.1.0"
edition = "2021"
publish = false

[dependencies]
anyhow = "*"
clap = { version = "*", features = ["derive"] }
colored = "*"
crossterm = "*"
dirs = "*"
dotenvy = "*"
futures = "*"
image = { version = "*", default-features = false, features = ["jpeg", "png"] }
ratatui = "*"
reqwest = { version = "*", default-features = false, features = ["json", "rustls-tls"] }
serde = { version = "*", features = ["derive"] }
serde_json = "*"
tokio = { version = "*", features = ["macros", "rt-multi-thread", "sync", "time"] }
toml = "*"
tracing = "*"
tracing-appender = "*"
tracing-subscriber = { version = "*", default-features = false, features = ["fmt", "ansi"] }
tui-input = "*"
uuid = { version = "*", features = ["v4"] }
viuer = "*"
