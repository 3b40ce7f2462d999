[package]
name = "gist"
version = "0.1.0"
edition = "2021"
publish = false

[dependencies]
anstream = "0.6"
anstyle = "1"
clap = { version = "4", features = ["derive"] }
crossterm = "0.29"
indicatif = "0.18"
portable-pty = "0.9"
ratatui = "0.30"
reqwest = { version = "0.12", default-features = false, features = ["json", "rustls-tls"] }
serde = { version = "1", features = ["derive"] }
serde_json = "1"
syntect = { version = "5", default-features = false, features = ["default-fancy"] }
thiserror = "2"
tokio = { version = "1", features = ["rt", "macros", "sync"] }
tui-term = "0.3"
vt100 = "0.16"
