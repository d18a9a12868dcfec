[package]
name = "hyprland_client"
version = "0.1.0"
edition = "2021"
publish = false

[dependencies]
hyprland = "0.4.0-alpha.3"
serde = { version = "1", features = ["derive"] }
serde_json = "1"
tokio = { version = "1", features = ["rt", "rt-multi-thread", "sync"] }
tracing = "0.1"
