[package]
name = "twitch_dashboard"
version = "0.1.0"
edition = "2021"
publish = false

[dependencies]
anyhow = "=1.0.104"
axum = "=0.7.9"
charybdis = "=1.1.0"
chrono = "=0.4.45"
clap = { version = "=4.6.7", features = ["derive"] }
crossterm = "=0.28.1"
futures = "=0.3.34"
log = "=0.4.35"
prometheus = "=0.13.4"
rand = "=0.8.8"
ratatui = "=0.28.1"
scylla = "=1.9.0"
tokio = { version = "=1.54.1", features = ["full"] }
tracing-subscriber = "=0.3.23"
twitch-irc = { version = "=5.0.1", features = ["metrics-collection"] }
uuid = { version = "=1.29.0", features = ["v4"] }
