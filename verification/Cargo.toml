[package]
name = "workouts"
version = "0.1.0"
edition = "2021"
publish = false

[dependencies]
anyhow = "1"
rand = "0.8"
rusty_audio = "1"
serde = { version = "1", features = ["derive"] }
serde_yaml = "0.8"
terminal-menu = "2"
termion = "1.5"
