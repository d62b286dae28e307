[package]
name = "peertube-viewer"
version = "1.8.1"
edition = "2021"
publish = false

[dependencies]
url = "2"
time = { version = "0.3", features = ["formatting", "parsing", "local-offset"] }
unicode-width = "0.1"
serde = { version = "1", features = ["derive"] }
serde_json = "1"
ureq = "2"
toml = "0.5"
clap = "3.2"
directories = "4"
rustyline = "9"
termion = "1.5"
terminal_size = "0.2"
textwrap = "0.16"
