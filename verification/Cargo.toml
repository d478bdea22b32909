[package]
name = "audio_relay"
version = "0.1.0"
edition = "2021"
publish = false

[dependencies]
anyhow = "1"
cpal = "0.14"
termion = "1.5"
tokio = { version = "1", features = ["rt-multi-thread", "macros", "sync"] }
tui = { version = "0.19", default-features = false, features = ["termion"] }
