[package]
name = "ame"
version = "0.1.0"
edition = "2021"
publish = false

[dependencies]
ansi_term = "=0.12.1"
colored = "=3.1.1"
dialoguer = "=0.12.0"
git2 = { version = "=0.21.0", default-features = false }
indicatif = "=0.18.6"
minus = { version = "=5.8.0", features = ["static_output", "search"] }
parking_lot = "=0.12.5"
raur = { version = "=8.0.0", features = ["blocking"] }
regex = "=1.13.1"
tracing = "=0.1.44"
