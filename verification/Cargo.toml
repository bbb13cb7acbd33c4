[package]
name = "muhenkan_switch"
version = "0.1.0"
edition = "2021"
publish = false

[dependencies]
anyhow = "1"
arboard = { version = "3", default-features = false }
chrono = "0.4"
clap = { version = "4", features = ["derive"] }
dirs = "5"
indexmap = { version = "2", features = ["serde"] }
open = "5"
serde = { version = "1", features = ["derive"] }
shared_child = "1"
toml = "0.8"
toml_edit = "0.22"
urlencoding = "2"
webbrowser = "1"
