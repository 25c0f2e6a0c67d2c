[package]
name = "logbrowse"
version = "0.1.0"
edition = "2021"
publish = false

[dependencies]
ansi-to-tui = "*"
chrono = "*"
crossterm = "*"
git2 = { version = "*", default-features = false }
ratatui = { version = "*", features = ["unstable-rendered-line-info"] }
textwrap = "*"
