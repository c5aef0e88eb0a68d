[package]
name = "helpdesk_clicker"
version = "0.1.0"
edition = "2021"
publish = false

[dependencies]
rand = "0.9"
serde = { version = "1", features = ["derive"] }
serde_json = "1"
dioxus = { version = "0.6", default-features = false, features = ["macro", "html", "signals", "hooks", "launch", "logger"] }
tokio = { version = "1", features = ["time"] }
chrono = "0.4"
