[package]
name = "prosettings_tui"
version = "0.1.0"
edition = "2021"
publish = false

[dependencies]
serde_json = "=1.0.154"
scraper = "=0.29.0"
serde = { version = "=1.0.229", features = ["derive"] }
crossterm = "=0.29.0"
ratatui = "=0.30.2"
opaline = { version = "=0.4.2", features = ["widgets"] }
tui-banner = "=0.2.3"
anyhow = "=1.0.104"
thiserror = "=2.0.21"
reqwest = { version = "=0.12.28", default-features = false, features = ["blocking", "rustls-tls"] }
