[package]
name = "chronobind"
version = "0.1.0"
edition = "2021"
publish = false

[dependencies]
chrono = "0.4"
clap = { version = "4", features = ["derive"] }
color-eyre = "*"
directories = "*"
itertools = "*"
log = "0.4"
prost = "*"
ratatui = "*"
ron = "*"
serde = { version = "1", features = ["derive"] }
terminal_relaunch = "*"
zip = { version = "*", default-features = false, features = ["deflate"] }
